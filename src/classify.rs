//! Classification of each measured channel against the reference profile.
use crate::protocol::{in_field_range, ReferenceProfile, TelemetryRecord};
use vstd::prelude::*;

verus! {

/// How far a channel is from its nominal value.
#[derive(Clone, Copy, Debug, PartialEq, Eq, Structural)]
pub enum ChannelStatus {
    Nominal,
    Warning,
    Critical,
}

/// How bad a status is: 0 for nominal, 1 for a warning, 2 when critical.
pub open spec fn severity(s: ChannelStatus) -> int {
    match s {
        ChannelStatus::Nominal => 0,
        ChannelStatus::Warning => 1,
        ChannelStatus::Critical => 2,
    }
}

/// The comparison policy that a channel follows.
#[derive(Clone, Copy, Debug, PartialEq, Eq, Structural)]
pub enum ChannelKind {
    /// Input voltage, output voltage and the output voltage needed.
    Voltage,
    Frequency,
    /// Current (leakage) in decis of an ampere.
    Current,
    /// Battery voltage, against absolute bounds.
    BatteryVoltage,
    /// The derived power draw, against the expected draw.
    PowerDraw,
}

/// The bands of the classifier, in hundredths of each channel's unit.
#[derive(Clone, Copy, Debug, PartialEq, Eq, Structural)]
pub struct Thresholds {
    /// A voltage this far above the reference, or more, is a warning.
    pub voltage_warning_above: i64,
    /// A voltage this far above the reference, or more, is critical.
    pub voltage_critical_above: i64,
    /// A voltage below the reference by at most this much is a warning;
    /// further below it is critical.
    pub voltage_warning_below: i64,
    /// A frequency off the reference by less than this is a warning.
    pub frequency_tolerance: i64,
    /// A current above the reference by more than this is critical.
    pub current_margin: i64,
    /// A battery voltage at or above this is nominal.
    pub battery_nominal_min: i64,
    /// A battery voltage at or above this (and below the nominal bound) is a warning.
    pub battery_warning_min: i64,
    /// A power draw up to this much above the expected draw is nominal.
    pub power_nominal_margin: i64,
    /// A power draw up to this much above the expected draw is a warning.
    pub power_warning_margin: i64,
    /// On battery, a battery voltage at or below the reference minus this
    /// calls for a shutdown.
    pub shutdown_margin: i64,
}

impl Thresholds {
    /// Bands that nest: margins are non-negative and the critical voltage
    /// band lies beyond the warning band.
    pub open spec fn wf(&self) -> bool {
        &&& 0 <= self.voltage_warning_above <= self.voltage_critical_above
        &&& 0 < self.voltage_critical_above
        &&& 0 <= self.voltage_warning_below
        &&& 0 <= self.current_margin
        &&& 0 <= self.power_nominal_margin
    }

    /// The usual calibration: voltage bands at +20 V, +35 V and -3 V, a
    /// frequency tolerance of 5 Hz, a current margin of 12 dA, battery bounds
    /// of 12.72 V and 12 V, power bands at +185 W and +385 W, and a
    /// shutdown margin of 0.1 V.
    pub fn standard() -> (r: Thresholds)
        ensures
            r == (Thresholds {
                voltage_warning_above: 2000,
                voltage_critical_above: 3500,
                voltage_warning_below: 300,
                frequency_tolerance: 500,
                current_margin: 1200,
                battery_nominal_min: 1272,
                battery_warning_min: 1200,
                power_nominal_margin: 18500,
                power_warning_margin: 38500,
                shutdown_margin: 10,
            }),
            r.wf(),
    {
        Thresholds {
            voltage_warning_above: 2000,
            voltage_critical_above: 3500,
            voltage_warning_below: 300,
            frequency_tolerance: 500,
            current_margin: 1200,
            battery_nominal_min: 1272,
            battery_warning_min: 1200,
            power_nominal_margin: 18500,
            power_warning_margin: 38500,
            shutdown_margin: 10,
        }
    }
}

pub open spec fn abs(x: int) -> int {
    if x < 0 {
        -x
    } else {
        x
    }
}

/// The status of value `v` of a channel of kind `kind` whose reference is `r`.
pub open spec fn status_of(t: Thresholds, kind: ChannelKind, v: int, r: int) -> ChannelStatus {
    match kind {
        ChannelKind::Voltage => {
            if v >= r + t.voltage_critical_above {
                ChannelStatus::Critical
            } else if v >= r + t.voltage_warning_above {
                ChannelStatus::Warning
            } else if v >= r {
                ChannelStatus::Nominal
            } else if v >= r - t.voltage_warning_below {
                ChannelStatus::Warning
            } else {
                ChannelStatus::Critical
            }
        },
        ChannelKind::Frequency => {
            if v == r {
                ChannelStatus::Nominal
            } else if abs(v - r) < t.frequency_tolerance {
                ChannelStatus::Warning
            } else {
                ChannelStatus::Critical
            }
        },
        ChannelKind::Current => {
            if v <= r + t.current_margin {
                ChannelStatus::Nominal
            } else {
                ChannelStatus::Critical
            }
        },
        ChannelKind::BatteryVoltage => {
            if v >= t.battery_nominal_min {
                ChannelStatus::Nominal
            } else if v >= t.battery_warning_min {
                ChannelStatus::Warning
            } else {
                ChannelStatus::Critical
            }
        },
        ChannelKind::PowerDraw => {
            if v <= r + t.power_nominal_margin {
                ChannelStatus::Nominal
            } else if v <= r + t.power_warning_margin {
                ChannelStatus::Warning
            } else {
                ChannelStatus::Critical
            }
        },
    }
}

/// Classifies `value` of a channel of kind `kind` against `reference`.
/// Total: every value has a status.
pub fn classify(value: i64, reference: i64, kind: ChannelKind, t: &Thresholds) -> (r:
    ChannelStatus)
    ensures
        r == status_of(*t, kind, value as int, reference as int),
{
    let v = value as i128;
    let r = reference as i128;
    match kind {
        ChannelKind::Voltage => {
            if v >= r + t.voltage_critical_above as i128 {
                ChannelStatus::Critical
            } else if v >= r + t.voltage_warning_above as i128 {
                ChannelStatus::Warning
            } else if v >= r {
                ChannelStatus::Nominal
            } else if v >= r - t.voltage_warning_below as i128 {
                ChannelStatus::Warning
            } else {
                ChannelStatus::Critical
            }
        },
        ChannelKind::Frequency => {
            let d = if v >= r {
                v - r
            } else {
                r - v
            };
            if v == r {
                ChannelStatus::Nominal
            } else if d < t.frequency_tolerance as i128 {
                ChannelStatus::Warning
            } else {
                ChannelStatus::Critical
            }
        },
        ChannelKind::Current => {
            if v <= r + t.current_margin as i128 {
                ChannelStatus::Nominal
            } else {
                ChannelStatus::Critical
            }
        },
        ChannelKind::BatteryVoltage => {
            if value >= t.battery_nominal_min {
                ChannelStatus::Nominal
            } else if value >= t.battery_warning_min {
                ChannelStatus::Warning
            } else {
                ChannelStatus::Critical
            }
        },
        ChannelKind::PowerDraw => {
            if v <= r + t.power_nominal_margin as i128 {
                ChannelStatus::Nominal
            } else if v <= r + t.power_warning_margin as i128 {
                ChannelStatus::Warning
            } else {
                ChannelStatus::Critical
            }
        },
    }
}

/// `v2` lies at least as far from the nominal value as `v1`, on the same
/// side: for the battery, lower; for the other kinds, away from the reference.
pub open spec fn no_closer(kind: ChannelKind, r: int, v1: int, v2: int) -> bool {
    match kind {
        ChannelKind::BatteryVoltage => v2 <= v1,
        _ => (r <= v1 && v1 <= v2) || (v2 <= v1 && v1 <= r),
    }
}

/// Moving a value further from its nominal value never improves its status.
pub proof fn classification_monotonic(
    t: Thresholds,
    kind: ChannelKind,
    r: int,
    v1: int,
    v2: int,
)
    requires
        t.wf(),
        no_closer(kind, r, v1, v2),
    ensures
        severity(status_of(t, kind, v1, r)) <= severity(status_of(t, kind, v2, r)),
{
    match kind {
        ChannelKind::Frequency => {
            assert(abs(v1 - r) <= abs(v2 - r));
        },
        _ => {},
    }
}


/// `x / d` rounded to the nearest integer, halves away from zero.
pub open spec fn round_div(x: int, d: int) -> int {
    if x >= 0 {
        (x + d / 2) / d
    } else {
        -((-x + d / 2) / d)
    }
}

/// The power drawn, in hundredths of a watt, by a current in hundredths of
/// a deci-ampere at a voltage in hundredths of a volt: the product of
/// current and voltage rounded to a whole number of deci-ampere volts, then
/// read in watts.
pub open spec fn power_draw_of(current: int, voltage: int) -> int {
    10 * round_div(current * voltage, 10000)
}

/// The power drawn by `current` at `voltage` (30 dA at 230 V draw 690 W).
pub fn power_draw(current: i64, voltage: i64) -> (r: i64)
    requires
        in_field_range(current as int),
        in_field_range(voltage as int),
    ensures
        r == power_draw_of(current as int, voltage as int),
        -100_000_000_000_000 < r < 100_000_000_000_000,
{
    let ghost bound: int = 100_000_000;
    assert(-10_000_000_000_000_000 < current * voltage < 10_000_000_000_000_000) by (nonlinear_arith)
        requires
            -bound < current < bound,
            -bound < voltage < bound,
            bound == 100_000_000,
    ;
    let x: i64 = current * voltage;
    let q: i64 = if x >= 0 {
        (x + 5000) / 10000
    } else {
        -((-x + 5000) / 10000)
    };
    assert(-10_000_000_000_000 < q < 10_000_000_000_000);
    10 * q
}

/// The power that the profile's current and voltage would draw.
pub open spec fn expected_power_draw_of(p: ReferenceProfile) -> int {
    power_draw_of(p.current as int, p.voltage as int)
}

/// Either flag of alternate power is set: the first or the third.
pub open spec fn on_battery_spec(rec: TelemetryRecord) -> bool {
    rec.flags@[0] == 1 || rec.flags@[2] == 1
}

/// Whether the unit runs on its battery, by the first or the third flag.
pub fn on_battery(rec: &TelemetryRecord) -> (r: bool)
    requires
        rec.wf(),
    ensures
        r == on_battery_spec(*rec),
{
    rec.flags[0] == 1 || rec.flags[2] == 1
}

/// The status shown for the power source: nominal when the first flag is
/// set, a warning when only the third is, critical when neither is.
pub open spec fn power_source_status_of(rec: TelemetryRecord) -> ChannelStatus {
    if rec.flags@[0] == 1 {
        ChannelStatus::Nominal
    } else if rec.flags@[2] == 1 {
        ChannelStatus::Warning
    } else {
        ChannelStatus::Critical
    }
}

/// The status of every channel of one record.
#[derive(Clone, Copy, Debug, PartialEq, Eq, Structural)]
pub struct ChannelStatuses {
    pub input_voltage: ChannelStatus,
    pub output_voltage_needed: ChannelStatus,
    pub output_voltage: ChannelStatus,
    pub current: ChannelStatus,
    pub frequency: ChannelStatus,
    pub battery_voltage: ChannelStatus,
    pub power_draw: ChannelStatus,
    pub power_source: ChannelStatus,
}

/// The statuses of record `rec` against profile `p`.
pub open spec fn statuses_of(t: Thresholds, rec: TelemetryRecord, p: ReferenceProfile) -> ChannelStatuses {
    ChannelStatuses {
        input_voltage: status_of(t, ChannelKind::Voltage, rec.input_voltage as int, p.voltage as int),
        output_voltage_needed: status_of(
            t,
            ChannelKind::Voltage,
            rec.output_voltage_needed as int,
            p.voltage as int,
        ),
        output_voltage: status_of(t, ChannelKind::Voltage, rec.output_voltage as int, p.voltage as int),
        current: status_of(t, ChannelKind::Current, rec.current as int, p.current as int),
        frequency: status_of(t, ChannelKind::Frequency, rec.frequency as int, p.frequency as int),
        battery_voltage: status_of(
            t,
            ChannelKind::BatteryVoltage,
            rec.battery_voltage as int,
            p.battery_voltage as int,
        ),
        power_draw: status_of(
            t,
            ChannelKind::PowerDraw,
            power_draw_of(rec.current as int, rec.output_voltage as int),
            expected_power_draw_of(p),
        ),
        power_source: power_source_status_of(rec),
    }
}

/// Classifies every channel of `rec` against `p`.
pub fn classify_record(rec: &TelemetryRecord, p: &ReferenceProfile, t: &Thresholds) -> (r:
    ChannelStatuses)
    requires
        rec.wf(),
        p.wf(),
    ensures
        r == statuses_of(*t, *rec, *p),
{
    let draw = power_draw(rec.current, rec.output_voltage);
    let expected = power_draw(p.current, p.voltage);
    ChannelStatuses {
        input_voltage: classify(rec.input_voltage, p.voltage, ChannelKind::Voltage, t),
        output_voltage_needed: classify(rec.output_voltage_needed, p.voltage, ChannelKind::Voltage, t),
        output_voltage: classify(rec.output_voltage, p.voltage, ChannelKind::Voltage, t),
        current: classify(rec.current, p.current, ChannelKind::Current, t),
        frequency: classify(rec.frequency, p.frequency, ChannelKind::Frequency, t),
        battery_voltage: classify(
            rec.battery_voltage,
            p.battery_voltage,
            ChannelKind::BatteryVoltage,
            t,
        ),
        power_draw: classify(draw, expected, ChannelKind::PowerDraw, t),
        power_source: if rec.flags[0] == 1 {
            ChannelStatus::Nominal
        } else if rec.flags[2] == 1 {
            ChannelStatus::Warning
        } else {
            ChannelStatus::Critical
        },
    }
}

} // verus!
