//! The auto-shutdown watchdog: on battery with a low battery, shut down.
use crate::classify::{on_battery, on_battery_spec, Thresholds};
use crate::protocol::{
    decode_telemetry, flag_of, telemetry_channel, ReferenceProfile, TelemetryRecord,
    TELEMETRY_FRAME_LEN,
};
use vstd::prelude::*;
use vstd::string::StringSliceAdditionalSpecFns;

verus! {

/// Seconds between two polls of the watchdog.
pub const WATCHDOG_PERIOD_SECS: u64 = 20;

/// Seconds that the watchdog waits after a failed read before it stops.
pub const WATCHDOG_RETRY_DELAY_SECS: u64 = 15;

/// On battery, with a battery voltage at or below the expected one minus the
/// shutdown margin.
pub open spec fn shutdown_due_spec(rec: TelemetryRecord, p: ReferenceProfile, t: Thresholds) -> bool {
    on_battery_spec(rec) && rec.battery_voltage <= p.battery_voltage - t.shutdown_margin
}

/// Whether record `rec` calls for a shutdown.
pub fn shutdown_due(rec: &TelemetryRecord, p: &ReferenceProfile, t: &Thresholds) -> (r: bool)
    requires
        rec.wf(),
    ensures
        r == shutdown_due_spec(*rec, *p, *t),
{
    on_battery(rec) && (rec.battery_voltage as i128) <= (p.battery_voltage as i128)
        - (t.shutdown_margin as i128)
}

/// What the watchdog does after one poll.
#[derive(Clone, Copy, Debug, PartialEq, Eq, Structural)]
pub enum WatchdogAction {
    /// Issue the shutdown command and power the host off, then wait a period.
    Shutdown,
    /// Wait a period and poll again.
    Wait,
    /// The device is gone: wait the retry delay and end this watchdog.
    Stop,
}

/// The status frame `b` calls for a shutdown: it has the exact length, a flag
/// of alternate power is set, and the battery voltage is at or below the
/// expected one minus the margin.
pub open spec fn frame_calls_for_shutdown(b: Seq<u8>, p: ReferenceProfile, t: Thresholds) -> bool {
    &&& b.len() == TELEMETRY_FRAME_LEN
    &&& (flag_of(b[38]) == 1 || flag_of(b[40]) == 1)
    &&& telemetry_channel(b, 5) <= p.battery_voltage - t.shutdown_margin
}

/// One poll of the watchdog, given what the read of the status frame gave.
/// Emits a shutdown exactly when the frame calls for one; a frame of the
/// wrong length is passed over.
pub fn watchdog_step(frame: Option<&str>, p: &ReferenceProfile, t: &Thresholds) -> (r:
    WatchdogAction)
    ensures
        frame is None ==> r == WatchdogAction::Stop,
        frame matches Some(s) ==> {
            &&& frame_calls_for_shutdown(s.spec_bytes(), *p, *t) ==> r == WatchdogAction::Shutdown
            &&& !frame_calls_for_shutdown(s.spec_bytes(), *p, *t) ==> r == WatchdogAction::Wait
        },
{
    match frame {
        None => WatchdogAction::Stop,
        Some(s) => match decode_telemetry(s) {
            Some(rec) => {
                if shutdown_due(&rec, p, t) {
                    WatchdogAction::Shutdown
                } else {
                    WatchdogAction::Wait
                }
            },
            None => WatchdogAction::Wait,
        },
    }
}

} // verus!
