use ups_monitor::classify::{
    classify, classify_record, on_battery, power_draw, ChannelKind, ChannelStatus, Thresholds,
};
use ups_monitor::protocol::{ReferenceProfile, TelemetryRecord};

fn record(current: i64, output_voltage: i64, battery_voltage: i64, flags: Vec<u8>) -> TelemetryRecord {
    TelemetryRecord {
        input_voltage: 22000,
        output_voltage_needed: 22000,
        output_voltage,
        current,
        frequency: 5000,
        battery_voltage,
        flags,
    }
}

fn severity(s: ChannelStatus) -> u8 {
    match s {
        ChannelStatus::Nominal => 0,
        ChannelStatus::Warning => 1,
        ChannelStatus::Critical => 2,
    }
}

#[test]
fn input_voltage_245_against_220_is_warning() {
    let t = Thresholds::standard();
    assert_eq!(classify(24500, 22000, ChannelKind::Voltage, &t), ChannelStatus::Warning);
}

#[test]
fn voltage_bands() {
    let t = Thresholds::standard();
    let v = |x: i64| classify(x, 22000, ChannelKind::Voltage, &t);
    assert_eq!(v(25500), ChannelStatus::Critical);
    assert_eq!(v(30000), ChannelStatus::Critical);
    assert_eq!(v(25499), ChannelStatus::Warning);
    assert_eq!(v(24000), ChannelStatus::Warning);
    assert_eq!(v(23999), ChannelStatus::Nominal);
    assert_eq!(v(22000), ChannelStatus::Nominal);
    assert_eq!(v(21999), ChannelStatus::Warning);
    assert_eq!(v(21700), ChannelStatus::Warning);
    assert_eq!(v(21699), ChannelStatus::Critical);
    assert_eq!(v(0), ChannelStatus::Critical);
}

#[test]
fn battery_bands() {
    let t = Thresholds::standard();
    let b = |x: i64| classify(x, 1200, ChannelKind::BatteryVoltage, &t);
    assert_eq!(b(1250), ChannelStatus::Warning);
    assert_eq!(b(1280), ChannelStatus::Nominal);
    assert_eq!(b(1150), ChannelStatus::Critical);
    assert_eq!(b(1272), ChannelStatus::Nominal);
    assert_eq!(b(1271), ChannelStatus::Warning);
    assert_eq!(b(1200), ChannelStatus::Warning);
    assert_eq!(b(1199), ChannelStatus::Critical);
}

#[test]
fn frequency_bands() {
    let t = Thresholds::standard();
    let f = |x: i64| classify(x, 5000, ChannelKind::Frequency, &t);
    assert_eq!(f(5000), ChannelStatus::Nominal);
    assert_eq!(f(5001), ChannelStatus::Warning);
    assert_eq!(f(4501), ChannelStatus::Warning);
    assert_eq!(f(5499), ChannelStatus::Warning);
    assert_eq!(f(4500), ChannelStatus::Critical);
    assert_eq!(f(5500), ChannelStatus::Critical);
    let tight = Thresholds { frequency_tolerance: 30, ..t };
    assert_eq!(classify(5020, 5000, ChannelKind::Frequency, &tight), ChannelStatus::Warning);
    assert_eq!(classify(5030, 5000, ChannelKind::Frequency, &tight), ChannelStatus::Critical);
}

#[test]
fn current_has_two_bands() {
    let t = Thresholds::standard();
    let c = |x: i64| classify(x, 300, ChannelKind::Current, &t);
    assert_eq!(c(0), ChannelStatus::Nominal);
    assert_eq!(c(1500), ChannelStatus::Nominal);
    assert_eq!(c(1501), ChannelStatus::Critical);
}

#[test]
fn power_draw_of_30_da_at_230_v() {
    assert_eq!(power_draw(3000, 23000), 69000);
    // The expected draw of the standard profile: 3 dA at 220 V.
    assert_eq!(power_draw(300, 22000), 6600);
    let t = Thresholds::standard();
    assert_eq!(classify(69000, 6600, ChannelKind::PowerDraw, &t), ChannelStatus::Critical);
    assert_eq!(classify(69000, 66000, ChannelKind::PowerDraw, &t), ChannelStatus::Nominal);
    assert_eq!(classify(6600 + 18500, 6600, ChannelKind::PowerDraw, &t), ChannelStatus::Nominal);
    assert_eq!(classify(6600 + 18510, 6600, ChannelKind::PowerDraw, &t), ChannelStatus::Warning);
    assert_eq!(classify(6600 + 38500, 6600, ChannelKind::PowerDraw, &t), ChannelStatus::Warning);
    assert_eq!(classify(6600 + 38510, 6600, ChannelKind::PowerDraw, &t), ChannelStatus::Critical);
}

#[test]
fn power_draw_rounds_halves_away_from_zero() {
    // 1.5 dA at 1 V is 1.5 dA V, rounded to 2, read as 0.2 W.
    assert_eq!(power_draw(150, 100), 20);
    assert_eq!(power_draw(149, 100), 10);
    assert_eq!(power_draw(-150, 100), -20);
    assert_eq!(power_draw(0, 23000), 0);
}

#[test]
fn moving_away_from_nominal_never_improves_status() {
    let t = Thresholds::standard();
    let kinds = [
        ChannelKind::Voltage,
        ChannelKind::Frequency,
        ChannelKind::Current,
        ChannelKind::PowerDraw,
    ];
    for kind in kinds {
        let mut last = 0;
        for step in 0..100 {
            let s = severity(classify(22000 + step * 100, 22000, kind, &t));
            assert!(s >= last);
            last = s;
        }
        let mut last = 0;
        for step in 0..100 {
            let s = severity(classify(22000 - step * 100, 22000, kind, &t));
            assert!(s >= last);
            last = s;
        }
    }
    let mut last = 0;
    for step in 0..100 {
        let s = severity(classify(1400 - step * 5, 1200, ChannelKind::BatteryVoltage, &t));
        assert!(s >= last);
        last = s;
    }
}

#[test]
fn record_statuses() {
    let t = Thresholds::standard();
    let p = ReferenceProfile::standard();
    let rec = record(3000, 23000, 1250, vec![0, 0, 1, 0, 0, 0, 0, 0]);
    let s = classify_record(&rec, &p, &t);
    assert_eq!(s.input_voltage, ChannelStatus::Nominal);
    assert_eq!(s.output_voltage_needed, ChannelStatus::Nominal);
    assert_eq!(s.output_voltage, ChannelStatus::Nominal);
    assert_eq!(s.current, ChannelStatus::Critical);
    assert_eq!(s.frequency, ChannelStatus::Nominal);
    assert_eq!(s.battery_voltage, ChannelStatus::Warning);
    assert_eq!(s.power_draw, ChannelStatus::Critical);
    assert_eq!(s.power_source, ChannelStatus::Warning);
}

#[test]
fn power_source_flags() {
    let on_mains = record(300, 22000, 1300, vec![0, 0, 0, 0, 0, 0, 0, 0]);
    let first = record(300, 22000, 1300, vec![1, 0, 0, 0, 0, 0, 0, 0]);
    let third = record(300, 22000, 1300, vec![0, 0, 1, 0, 0, 0, 0, 0]);
    let digit_two = record(300, 22000, 1300, vec![2, 0, 0, 0, 0, 0, 0, 0]);
    assert!(!on_battery(&on_mains));
    assert!(on_battery(&first));
    assert!(on_battery(&third));
    assert!(!on_battery(&digit_two));
    let t = Thresholds::standard();
    let p = ReferenceProfile::standard();
    assert_eq!(classify_record(&first, &p, &t).power_source, ChannelStatus::Nominal);
    assert_eq!(classify_record(&on_mains, &p, &t).power_source, ChannelStatus::Critical);
}
