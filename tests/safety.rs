use ups_monitor::classify::Thresholds;
use ups_monitor::commands::{
    command_index, needs_status, powers_off_host, Command, CommandCodes, CommandError,
};
use ups_monitor::protocol::ReferenceProfile;
use ups_monitor::watchdog::{shutdown_due, watchdog_step, WatchdogAction};
use ups_monitor::protocol::TelemetryRecord;

fn status_frame(battery: &str, flags: &str) -> String {
    let current = format!("{}3", "0".repeat(6 - battery.len()));
    let body = format!("220.0 220.0 220.0 {} 50.0 {}", current, battery);
    assert_eq!(body.len(), 31);
    let frame = format!("({} 25.0 {}\r", body, flags);
    assert_eq!(frame.len(), 47);
    frame
}

#[test]
fn watchdog_shuts_down_on_low_battery() {
    let p = ReferenceProfile::standard();
    let t = Thresholds::standard();
    // Expected 12 V: 11.8 V is 0.2 V below.
    let low = status_frame("11.8", "10000000");
    assert_eq!(watchdog_step(Some(&low), &p, &t), WatchdogAction::Shutdown);
    // Each qualifying poll gives one shutdown.
    assert_eq!(watchdog_step(Some(&low), &p, &t), WatchdogAction::Shutdown);
    // 12.05 V is above the expected voltage.
    let fine = status_frame("12.05", "10000000");
    assert_eq!(watchdog_step(Some(&fine), &p, &t), WatchdogAction::Wait);
}

#[test]
fn watchdog_needs_battery_flag() {
    let p = ReferenceProfile::standard();
    let t = Thresholds::standard();
    assert_eq!(watchdog_step(Some(&status_frame("11.8", "00000000")), &p, &t), WatchdogAction::Wait);
    assert_eq!(
        watchdog_step(Some(&status_frame("11.8", "00100000")), &p, &t),
        WatchdogAction::Shutdown
    );
    // Exactly at the expected voltage minus the margin still shuts down.
    assert_eq!(
        watchdog_step(Some(&status_frame("11.9", "10000000")), &p, &t),
        WatchdogAction::Shutdown
    );
    assert_eq!(
        watchdog_step(Some(&status_frame("11.91", "10000000")), &p, &t),
        WatchdogAction::Wait
    );
}

#[test]
fn watchdog_stops_when_device_is_gone() {
    let p = ReferenceProfile::standard();
    let t = Thresholds::standard();
    assert_eq!(watchdog_step(None, &p, &t), WatchdogAction::Stop);
    assert_eq!(watchdog_step(Some("short"), &p, &t), WatchdogAction::Wait);
}

#[test]
fn shutdown_due_on_record() {
    let p = ReferenceProfile::standard();
    let t = Thresholds::standard();
    let rec = TelemetryRecord {
        input_voltage: 0,
        output_voltage_needed: 0,
        output_voltage: 0,
        current: 0,
        frequency: 0,
        battery_voltage: 1180,
        flags: vec![1, 0, 0, 0, 0, 0, 0, 0],
    };
    assert!(shutdown_due(&rec, &p, &t));
    let charged = TelemetryRecord { battery_voltage: 1205, ..rec.clone() };
    assert!(!shutdown_due(&charged, &p, &t));
    let mains = TelemetryRecord { flags: vec![0; 8], ..rec };
    assert!(!shutdown_due(&mains, &p, &t));
}

#[test]
fn command_codes() {
    let codes = CommandCodes::standard();
    assert_eq!(command_index(Command::SelfTest, &codes, None), Ok(4));
    assert_eq!(command_index(Command::Shutdown, &codes, None), Ok(24));
    let on_battery = status_frame("12.50", "10000000");
    let on_mains = status_frame("13.50", "00000000");
    assert_eq!(command_index(Command::SwitchSource, &codes, Some(&on_battery)), Ok(20));
    assert_eq!(command_index(Command::SwitchSource, &codes, Some(&on_mains)), Ok(5));
    assert_eq!(
        command_index(Command::SwitchSource, &codes, None),
        Err(CommandError::StateUnknown)
    );
    assert_eq!(
        command_index(Command::SwitchSource, &codes, Some("bad")),
        Err(CommandError::StateUnknown)
    );
}

#[test]
fn command_follow_ups() {
    assert!(needs_status(Command::SwitchSource));
    assert!(!needs_status(Command::SelfTest));
    assert!(!needs_status(Command::Shutdown));
    assert!(powers_off_host(Command::Shutdown));
    assert!(!powers_off_host(Command::SelfTest));
    assert!(!powers_off_host(Command::SwitchSource));
}
