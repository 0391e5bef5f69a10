//! The monitoring loop as a state machine: the caller performs each action
//! (open a session, read a frame, publish, sleep) and hands back the event.
use crate::classify::{
    classify_record, expected_power_draw_of, power_draw, power_draw_of, statuses_of,
    ChannelStatuses, Thresholds,
};
use crate::protocol::{
    decode_reference, decode_telemetry, reference_of, telemetry_of, ReferenceProfile,
    TelemetryRecord, REFERENCE_FRAME_LEN, TELEMETRY_FRAME_LEN,
};
use vstd::prelude::*;
use vstd::string::StringSliceAdditionalSpecFns;
use vstd::utf8::encode_utf8;

verus! {

/// Seconds between two polls of the status frame.
pub const POLL_PERIOD_SECS: u64 = 1;

/// Seconds to wait before opening the device again.
pub const RECONNECT_DELAY_SECS: u64 = 5;

/// How the device is found.
#[derive(Clone, Debug)]
pub enum DeviceSelector {
    /// A platform device path.
    Path(String),
    /// A vendor and product identifier.
    Ids { vendor_id: u16, product_id: u16 },
}

/// Where the reference profile of a connection comes from.
#[derive(Clone, Copy, Debug, PartialEq, Eq, Structural)]
pub enum ReferenceSource {
    /// Read once per connection from the reference frame of the device.
    Device,
    /// A fixed profile.
    Fixed(ReferenceProfile),
}

/// The profile of a connection: the fixed one, or what the device's
/// reference frame holds; `None` when that frame is absent or of the wrong length.
pub fn resolve_reference(source: ReferenceSource, frame: Option<&str>) -> (r: Option<
    ReferenceProfile,
>)
    ensures
        source matches ReferenceSource::Fixed(p) ==> r == Some(p),
        source is Device ==> (frame is None ==> r is None),
        source is Device ==> (frame matches Some(s) ==> (r is Some <==> s.spec_bytes().len()
            == REFERENCE_FRAME_LEN) && (r matches Some(p) ==> p == reference_of(s.spec_bytes()))),
{
    match source {
        ReferenceSource::Fixed(p) => Some(p),
        ReferenceSource::Device => match frame {
            Some(s) => decode_reference(s),
            None => None,
        },
    }
}

/// The phase of the monitoring loop.
#[derive(Clone, Copy, Debug, PartialEq, Eq, Structural)]
pub enum Phase {
    /// No session: opening one.
    Connecting,
    /// A session is open: reading a frame each period.
    Polling,
    /// The session was lost: waiting before connecting again.
    Disconnected,
}

/// What the caller observed.
#[derive(Clone, Debug)]
pub enum MonitorEvent {
    /// A session was opened, with the profile for this connection.
    Opened(ReferenceProfile),
    /// The device could not be opened.
    OpenFailed,
    /// A status frame was read.
    Frame(String),
    /// The read gave nothing: the device is gone.
    NoFrame,
    /// The wait after a disconnection is over.
    BackoffElapsed,
}

/// One decoded and classified status frame.
#[derive(Clone, Debug)]
pub struct Reading {
    pub record: TelemetryRecord,
    /// The derived power draw, in hundredths of a watt.
    pub power_draw: i64,
    /// The draw that the profile expects, in hundredths of a watt.
    pub expected_power_draw: i64,
    pub statuses: ChannelStatuses,
}

/// `rd` is the reading of status frame `b` against profile `p`.
pub open spec fn reading_of(b: Seq<u8>, p: ReferenceProfile, t: Thresholds, rd: Reading) -> bool {
    &&& telemetry_of(b, rd.record)
    &&& rd.record.wf()
    &&& rd.power_draw == power_draw_of(rd.record.current as int, rd.record.output_voltage as int)
    &&& rd.expected_power_draw == expected_power_draw_of(p)
    &&& rd.statuses == statuses_of(t, rd.record, p)
}

/// What the caller does next.
#[derive(Clone, Debug)]
pub enum MonitorAction {
    /// Wait the reconnect delay and try to open the device again.
    RetryLater,
    /// Start the watchdog of this connection and read the first frame.
    StartPolling,
    /// Publish the reading, wait a period, read the next frame.
    Publish(Reading),
    /// Drop the frame, wait a period, read the next frame.
    Discard,
    /// Close the session, wait for the watchdog to stop, then wait the
    /// reconnect delay.
    EndEpoch,
    /// Open the device again.
    Reconnect,
    /// The event does not belong to this phase: nothing to do.
    Ignore,
}

/// The monitoring loop of one device.
pub struct Monitor {
    pub phase: Phase,
    /// The profile of the current connection.
    pub profile: ReferenceProfile,
    pub thresholds: Thresholds,
}

/// The phase that follows `phase` on event `e`, given whether an opened
/// session came with a usable profile.
pub open spec fn next_phase(phase: Phase, e: MonitorEvent) -> Phase {
    match (phase, e) {
        (Phase::Connecting, MonitorEvent::Opened(p)) => if p.wf() {
            Phase::Polling
        } else {
            Phase::Connecting
        },
        (Phase::Polling, MonitorEvent::NoFrame) => Phase::Disconnected,
        (Phase::Disconnected, MonitorEvent::BackoffElapsed) => Phase::Connecting,
        _ => phase,
    }
}

impl Monitor {
    /// While polling, the profile of the connection lies within field range.
    pub open spec fn wf(&self) -> bool {
        self.phase == Phase::Polling ==> self.profile.wf()
    }

    /// A loop that has yet to connect.
    pub fn new(thresholds: Thresholds) -> (r: Monitor)
        ensures
            r.phase == Phase::Connecting,
            r.thresholds == thresholds,
            r.wf(),
    {
        Monitor { phase: Phase::Connecting, profile: ReferenceProfile::standard(), thresholds }
    }

    /// Takes one event and says what to do next.
    pub fn step(&mut self, event: MonitorEvent) -> (r: MonitorAction)
        requires
            old(self).wf(),
        ensures
            final(self).wf(),
            final(self).phase == next_phase(old(self).phase, event),
            final(self).thresholds == old(self).thresholds,
            match (old(self).phase, event) {
                (Phase::Connecting, MonitorEvent::Opened(p)) => if p.wf() {
                    r is StartPolling && final(self).profile == p
                } else {
                    r is RetryLater && final(self).profile == old(self).profile
                },
                (Phase::Connecting, MonitorEvent::OpenFailed) => r is RetryLater,
                (Phase::Polling, MonitorEvent::Frame(s)) => {
                    let b = encode_utf8(s@);
                    &&& b.len() == TELEMETRY_FRAME_LEN ==> (r matches MonitorAction::Publish(rd)
                        && reading_of(b, old(self).profile, old(self).thresholds, rd))
                    &&& b.len() != TELEMETRY_FRAME_LEN ==> r is Discard
                },
                (Phase::Polling, MonitorEvent::NoFrame) => r is EndEpoch,
                (Phase::Disconnected, MonitorEvent::BackoffElapsed) => r is Reconnect,
                _ => r is Ignore,
            },
            !(old(self).phase == Phase::Connecting && event is Opened) ==> final(self).profile
                == old(self).profile,
    {
        match (self.phase, event) {
            (Phase::Connecting, MonitorEvent::Opened(p)) => {
                if p.in_range() {
                    self.phase = Phase::Polling;
                    self.profile = p;
                    MonitorAction::StartPolling
                } else {
                    MonitorAction::RetryLater
                }
            },
            (Phase::Connecting, MonitorEvent::OpenFailed) => MonitorAction::RetryLater,
            (Phase::Polling, MonitorEvent::Frame(s)) => match decode_telemetry(s.as_str()) {
                Some(record) => {
                    let statuses = classify_record(&record, &self.profile, &self.thresholds);
                    let draw = power_draw(record.current, record.output_voltage);
                    let expected = power_draw(self.profile.current, self.profile.voltage);
                    MonitorAction::Publish(
                        Reading { record, power_draw: draw, expected_power_draw: expected, statuses },
                    )
                },
                None => MonitorAction::Discard,
            },
            (Phase::Polling, MonitorEvent::NoFrame) => {
                self.phase = Phase::Disconnected;
                MonitorAction::EndEpoch
            },
            (Phase::Disconnected, MonitorEvent::BackoffElapsed) => {
                self.phase = Phase::Connecting;
                MonitorAction::Reconnect
            },
            _ => MonitorAction::Ignore,
        }
    }
}

} // verus!
