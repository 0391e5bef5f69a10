use ups_monitor::classify::{ChannelStatus, Thresholds};
use ups_monitor::monitor::{
    resolve_reference, Monitor, MonitorAction, MonitorEvent, Phase, ReferenceSource,
};
use ups_monitor::protocol::ReferenceProfile;

fn status_frame() -> String {
    let frame = format!("({} 25.0 {}\r", "245.0 220.0 220.0 003 50.0 12.5", "10000000");
    assert_eq!(frame.len(), 47);
    frame
}

#[test]
fn monitor_connects_after_failures() {
    let mut m = Monitor::new(Thresholds::standard());
    assert_eq!(m.phase, Phase::Connecting);
    assert!(matches!(m.step(MonitorEvent::OpenFailed), MonitorAction::RetryLater));
    assert_eq!(m.phase, Phase::Connecting);
    assert!(matches!(m.step(MonitorEvent::NoFrame), MonitorAction::Ignore));
    let p = ReferenceProfile { voltage: 23000, ..ReferenceProfile::standard() };
    assert!(matches!(m.step(MonitorEvent::Opened(p)), MonitorAction::StartPolling));
    assert_eq!(m.phase, Phase::Polling);
    assert_eq!(m.profile, p);
}

#[test]
fn monitor_publishes_and_discards() {
    let mut m = Monitor::new(Thresholds::standard());
    m.step(MonitorEvent::Opened(ReferenceProfile::standard()));
    match m.step(MonitorEvent::Frame(status_frame())) {
        MonitorAction::Publish(rd) => {
            assert_eq!(rd.record.input_voltage, 24500);
            assert_eq!(rd.statuses.input_voltage, ChannelStatus::Warning);
            assert_eq!(rd.statuses.battery_voltage, ChannelStatus::Warning);
            assert_eq!(rd.power_draw, 6600);
            assert_eq!(rd.expected_power_draw, 6600);
            assert_eq!(rd.statuses.power_draw, ChannelStatus::Nominal);
        }
        _ => panic!("expected a reading"),
    }
    assert!(matches!(m.step(MonitorEvent::Frame("(220".to_string())), MonitorAction::Discard));
    assert_eq!(m.phase, Phase::Polling);
}

#[test]
fn monitor_reconnects_after_loss() {
    let mut m = Monitor::new(Thresholds::standard());
    m.step(MonitorEvent::Opened(ReferenceProfile::standard()));
    assert!(matches!(m.step(MonitorEvent::NoFrame), MonitorAction::EndEpoch));
    assert_eq!(m.phase, Phase::Disconnected);
    assert!(matches!(m.step(MonitorEvent::Frame(status_frame())), MonitorAction::Ignore));
    assert!(matches!(m.step(MonitorEvent::BackoffElapsed), MonitorAction::Reconnect));
    assert_eq!(m.phase, Phase::Connecting);
}

#[test]
fn monitor_refuses_profile_out_of_range() {
    let mut m = Monitor::new(Thresholds::standard());
    let p = ReferenceProfile { voltage: i64::MAX, ..ReferenceProfile::standard() };
    assert!(matches!(m.step(MonitorEvent::Opened(p)), MonitorAction::RetryLater));
    assert_eq!(m.phase, Phase::Connecting);
}

#[test]
fn reference_sources() {
    let fixed = ReferenceProfile::standard();
    assert_eq!(resolve_reference(ReferenceSource::Fixed(fixed), None), Some(fixed));
    assert_eq!(resolve_reference(ReferenceSource::Device, None), None);
    assert_eq!(resolve_reference(ReferenceSource::Device, Some("\x01")), None);
    assert_eq!(
        resolve_reference(ReferenceSource::Device, Some("\x01230 05 24 60 0 0 0 0\x00")),
        Some(ReferenceProfile { voltage: 23000, current: 500, battery_voltage: 2400, frequency: 6000 })
    );
}
