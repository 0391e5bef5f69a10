//! The command dispatcher: which indexed string each user intent writes.
use crate::classify::on_battery;
use crate::protocol::{decode_telemetry, flag_of, TELEMETRY_FRAME_LEN};
use vstd::prelude::*;
use vstd::string::StringSliceAdditionalSpecFns;

verus! {

/// A user intent.
#[derive(Clone, Copy, Debug, PartialEq, Eq, Structural)]
pub enum Command {
    /// Run the device's self-test.
    SelfTest,
    /// Switch from mains to battery, or back.
    SwitchSource,
    /// Shut the device down, then power the host off.
    Shutdown,
}

/// The indexed strings that trigger each command.
#[derive(Clone, Copy, Debug, PartialEq, Eq, Structural)]
pub struct CommandCodes {
    pub self_test: i32,
    pub to_battery: i32,
    pub to_mains: i32,
    pub shutdown: i32,
}

impl CommandCodes {
    /// Self-test 4, switch to battery 5, switch to mains 20, shutdown 24.
    pub fn standard() -> (r: CommandCodes)
        ensures
            r == (CommandCodes { self_test: 4, to_battery: 5, to_mains: 20, shutdown: 24 }),
    {
        CommandCodes { self_test: 4, to_battery: 5, to_mains: 20, shutdown: 24 }
    }
}

/// Why a command was not carried out.
#[derive(Clone, Copy, Debug, PartialEq, Eq, Structural)]
pub enum CommandError {
    /// The power source could not be read, so the switch has no direction.
    StateUnknown,
    /// Writing the command to the device failed.
    WriteFailed,
    /// The host refused to power off.
    HostShutdownFailed,
}

/// Whether the command needs the status frame to pick its code.
pub fn needs_status(cmd: Command) -> (r: bool)
    ensures
        r == (cmd == Command::SwitchSource),
{
    match cmd {
        Command::SwitchSource => true,
        _ => false,
    }
}

/// Whether the command is followed by a power-off of the host.
pub fn powers_off_host(cmd: Command) -> (r: bool)
    ensures
        r == (cmd == Command::Shutdown),
{
    match cmd {
        Command::Shutdown => true,
        _ => false,
    }
}

/// The status frame `b` has the exact length and a flag of alternate power set.
pub open spec fn frame_on_battery(b: Seq<u8>) -> bool {
    b.len() == TELEMETRY_FRAME_LEN && (flag_of(b[38]) == 1 || flag_of(b[40]) == 1)
}

/// The indexed string to write for `cmd`. A switch goes to the mains when
/// the status frame shows the unit on battery and to the battery otherwise;
/// without a status frame of the exact length it fails with `StateUnknown`.
pub fn command_index(cmd: Command, codes: &CommandCodes, status: Option<&str>) -> (r: Result<
    i32,
    CommandError,
>)
    ensures
        cmd == Command::SelfTest ==> r == Ok::<i32, CommandError>(codes.self_test),
        cmd == Command::Shutdown ==> r == Ok::<i32, CommandError>(codes.shutdown),
        cmd == Command::SwitchSource ==> match status {
            None => r == Err::<i32, CommandError>(CommandError::StateUnknown),
            Some(s) => {
                let b = s.spec_bytes();
                &&& b.len() != TELEMETRY_FRAME_LEN ==> r == Err::<i32, CommandError>(
                    CommandError::StateUnknown,
                )
                &&& frame_on_battery(b) ==> r == Ok::<i32, CommandError>(codes.to_mains)
                &&& b.len() == TELEMETRY_FRAME_LEN && !frame_on_battery(b) ==> r == Ok::<
                    i32,
                    CommandError,
                >(codes.to_battery)
            },
        },
{
    match cmd {
        Command::SelfTest => Ok(codes.self_test),
        Command::Shutdown => Ok(codes.shutdown),
        Command::SwitchSource => match status {
            None => Err(CommandError::StateUnknown),
            Some(s) => match decode_telemetry(s) {
                None => Err(CommandError::StateUnknown),
                Some(rec) => {
                    if on_battery(&rec) {
                        Ok(codes.to_mains)
                    } else {
                        Ok(codes.to_battery)
                    }
                },
            },
        },
    }
}

} // verus!
