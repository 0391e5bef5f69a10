//! Decoding of the frames that the device reports as indexed strings.
//!
//! Numeric fields are held as fixed-point integers in hundredths of their
//! unit (220.5 V is `22050`). A field that is not a decimal number, or whose
//! integer part is too large to be a reading, decodes to zero.
use vstd::prelude::*;
use vstd::string::StringSliceAdditionalSpecFns;

verus! {

/// The ASCII code of `'0'`.
pub const ZERO: u8 = 48;

/// The ASCII code of `'.'`.
pub const DOT: u8 = 46;

/// The ASCII code of `' '`, which separates the numeric fields.
pub const SPACE: u8 = 32;

pub open spec fn is_digit(c: u8) -> bool {
    48 <= c <= 57
}

pub open spec fn digit_of(c: u8) -> int {
    c - 48
}

/// The value of one flag character: its digit, or zero for any other character.
pub open spec fn flag_of(c: u8) -> u8 {
    if is_digit(c) {
        (c - 48) as u8
    } else {
        0
    }
}

/// Reads one flag character as a single decimal digit; a non-digit reads as zero.
pub fn flag_value(c: u8) -> (r: u8)
    ensures
        r == flag_of(c),
        r <= 9,
{
    if 48 <= c && c <= 57 {
        c - ZERO
    } else {
        0
    }
}


/// The largest integer part that a numeric field may have.
pub const MAX_FIELD_UNITS: u64 = 999_999;

/// Every decoded numeric field lies strictly within this many hundredths of zero.
pub const FIELD_BOUND: i64 = 100_000_000;

pub open spec fn in_field_range(v: int) -> bool {
    -FIELD_BOUND < v < FIELD_BOUND
}

pub open spec fn all_digits(s: Seq<u8>) -> bool {
    forall|i: int| 0 <= i < s.len() ==> is_digit(#[trigger] s[i])
}

/// The value of a sequence of decimal digits.
pub open spec fn digits_value(s: Seq<u8>) -> int
    decreases s.len(),
{
    if s.len() == 0 {
        0
    } else {
        digits_value(s.drop_last()) * 10 + digit_of(s.last())
    }
}

/// The index of the first `'.'`, or the length when there is none.
pub open spec fn first_dot(s: Seq<u8>) -> int
    decreases s.len(),
{
    if s.len() == 0 {
        0
    } else if s[0] == DOT {
        0
    } else {
        1 + first_dot(s.skip(1))
    }
}

/// The digits before the decimal point.
pub open spec fn int_part(s: Seq<u8>) -> Seq<u8> {
    s.take(first_dot(s))
}

/// The characters after the decimal point (empty when there is none).
pub open spec fn frac_part(s: Seq<u8>) -> Seq<u8> {
    if first_dot(s) < s.len() {
        s.skip(first_dot(s) + 1)
    } else {
        Seq::empty()
    }
}

/// An unsigned decimal: digits, then optionally a point and more digits,
/// with at least one digit in all.
pub open spec fn is_unsigned_decimal(s: Seq<u8>) -> bool {
    &&& all_digits(int_part(s))
    &&& all_digits(frac_part(s))
    &&& int_part(s).len() + frac_part(s).len() > 0
}

/// The first two fractional digits as hundredths; later digits are cut off.
pub open spec fn frac_hundredths(f: Seq<u8>) -> int {
    if f.len() == 0 {
        0
    } else if f.len() == 1 {
        digit_of(f[0]) * 10
    } else {
        digit_of(f[0]) * 10 + digit_of(f[1])
    }
}

pub open spec fn has_sign(f: Seq<u8>) -> bool {
    f.len() > 0 && (f[0] == 45 || f[0] == 43)
}

/// The field without its leading sign.
pub open spec fn unsigned_body(f: Seq<u8>) -> Seq<u8> {
    if has_sign(f) {
        f.skip(1)
    } else {
        f
    }
}

/// The value of a numeric field in hundredths: an optionally signed decimal
/// whose integer part is at most `MAX_FIELD_UNITS`, truncated to two
/// fractional digits; zero for anything else.
pub open spec fn field_value(f: Seq<u8>) -> int {
    let body = unsigned_body(f);
    if is_unsigned_decimal(body) && digits_value(int_part(body)) <= MAX_FIELD_UNITS {
        let magnitude = digits_value(int_part(body)) * 100 + frac_hundredths(frac_part(body));
        if f.len() > 0 && f[0] == 45 {
            -magnitude
        } else {
            magnitude
        }
    } else {
        0
    }
}

proof fn lemma_first_dot_at(s: Seq<u8>, k: int)
    requires
        0 <= k <= s.len(),
        forall|j: int| 0 <= j < k ==> s[j] != DOT,
        k == s.len() || s[k] == DOT,
    ensures
        first_dot(s) == k,
    decreases k,
{
    if k > 0 {
        lemma_first_dot_at(s.skip(1), k - 1);
    }
}

proof fn lemma_digits_value_nonneg(s: Seq<u8>)
    requires
        all_digits(s),
    ensures
        digits_value(s) >= 0,
    decreases s.len(),
{
    if s.len() > 0 {
        lemma_digits_value_nonneg(s.drop_last());
    }
}

/// The index of the first `'.'` in `b[lo..hi]`, or `hi`.
fn scan_dot(b: &[u8], lo: usize, hi: usize) -> (r: usize)
    requires
        lo <= hi <= b@.len(),
    ensures
        lo <= r <= hi,
        first_dot(b@.subrange(lo as int, hi as int)) == r - lo,
{
    let mut i: usize = lo;
    while i < hi && b[i] != DOT
        invariant
            lo <= i <= hi <= b@.len(),
            forall|j: int| lo <= j < i ==> b@[j] != DOT,
        decreases hi - i,
    {
        i = i + 1;
    }
    proof {
        lemma_first_dot_at(b@.subrange(lo as int, hi as int), (i - lo) as int);
    }
    i
}

/// Whether `b[lo..hi]` holds digits only.
fn scan_digits(b: &[u8], lo: usize, hi: usize) -> (r: bool)
    requires
        lo <= hi <= b@.len(),
    ensures
        r == all_digits(b@.subrange(lo as int, hi as int)),
{
    let mut i: usize = lo;
    while i < hi
        invariant
            lo <= i <= hi <= b@.len(),
            forall|j: int| lo <= j < i ==> is_digit(b@[j]),
        decreases hi - i,
    {
        if b[i] < 48 || b[i] > 57 {
            assert(!is_digit(b@.subrange(lo as int, hi as int)[i - lo]));
            return false;
        }
        i = i + 1;
    }
    true
}

/// The value of the digits `b[lo..hi]`, exact while it is at most
/// `MAX_FIELD_UNITS`, and above that bound otherwise.
fn digits_value_capped(b: &[u8], lo: usize, hi: usize) -> (r: u64)
    requires
        lo <= hi <= b@.len(),
        all_digits(b@.subrange(lo as int, hi as int)),
    ensures
        digits_value(b@.subrange(lo as int, hi as int)) <= MAX_FIELD_UNITS ==> r
            == digits_value(b@.subrange(lo as int, hi as int)),
        digits_value(b@.subrange(lo as int, hi as int)) > MAX_FIELD_UNITS ==> r > MAX_FIELD_UNITS,
        r <= MAX_FIELD_UNITS * 10 + 9,
{
    let mut acc: u64 = 0;
    let mut i: usize = lo;
    assert(b@.subrange(lo as int, lo as int).len() == 0);
    while i < hi
        invariant
            lo <= i <= hi <= b@.len(),
            all_digits(b@.subrange(lo as int, hi as int)),
            acc <= MAX_FIELD_UNITS * 10 + 9,
            digits_value(b@.subrange(lo as int, i as int)) <= MAX_FIELD_UNITS ==> acc
                == digits_value(b@.subrange(lo as int, i as int)),
            digits_value(b@.subrange(lo as int, i as int)) > MAX_FIELD_UNITS ==> acc
                > MAX_FIELD_UNITS,
        decreases hi - i,
    {
        let ghost prev = b@.subrange(lo as int, i as int);
        let ghost next = b@.subrange(lo as int, i + 1);
        assert(next.drop_last() =~= prev);
        assert(is_digit(b@.subrange(lo as int, hi as int)[i - lo]));
        assert(next.last() == b@[i as int]);
        proof {
            lemma_digits_value_nonneg(prev);
        }
        if acc <= MAX_FIELD_UNITS {
            acc = acc * 10 + (b[i] - ZERO) as u64;
        }
        i = i + 1;
    }
    acc
}


/// Decodes the numeric field `b[lo..hi]` in hundredths, zero when malformed.
pub fn parse_field(b: &[u8], lo: usize, hi: usize) -> (r: i64)
    requires
        lo <= hi <= b@.len(),
    ensures
        r == field_value(b@.subrange(lo as int, hi as int)),
        in_field_range(r as int),
{
    let ghost f = b@.subrange(lo as int, hi as int);
    let signed = lo < hi && (b[lo] == 45 || b[lo] == 43);
    let negative = lo < hi && b[lo] == 45;
    let start: usize = if signed {
        lo + 1
    } else {
        lo
    };
    let ghost body = b@.subrange(start as int, hi as int);
    assert(body =~= unsigned_body(f));
    let dot = scan_dot(b, start, hi);
    let ghost k = first_dot(body);
    assert(int_part(body) =~= b@.subrange(start as int, dot as int));
    let frac_lo: usize = if dot < hi {
        dot + 1
    } else {
        hi
    };
    assert(frac_part(body) =~= b@.subrange(frac_lo as int, hi as int));
    if !scan_digits(b, start, dot) || !scan_digits(b, frac_lo, hi) {
        return 0;
    }
    if dot == start && frac_lo == hi {
        return 0;
    }
    let units = digits_value_capped(b, start, dot);
    if units > MAX_FIELD_UNITS {
        return 0;
    }
    proof {
        lemma_digits_value_nonneg(int_part(body));
    }
    let mut frac: i64 = 0;
    if frac_lo < hi {
        assert(is_digit(frac_part(body)[0]));
        frac = ((b[frac_lo] - ZERO) as i64) * 10;
        if frac_lo + 1 < hi {
            assert(is_digit(frac_part(body)[1]));
            frac = frac + (b[frac_lo + 1] - ZERO) as i64;
        }
    }
    let magnitude: i64 = (units as i64) * 100 + frac;
    if negative {
        -magnitude
    } else {
        magnitude
    }
}


/// The space-separated fields of `s`, empty ones included: `n` spaces give
/// `n + 1` fields.
pub open spec fn split_fields(s: Seq<u8>) -> Seq<Seq<u8>>
    decreases s.len(),
{
    if s.len() == 0 {
        seq![Seq::empty()]
    } else {
        let p = split_fields(s.drop_last());
        if s.last() == SPACE {
            p.push(Seq::empty())
        } else {
            p.update(p.len() - 1, p.last().push(s.last()))
        }
    }
}

/// The field of index `i`, empty where `s` has fewer fields.
pub open spec fn field_at(s: Seq<u8>, i: int) -> Seq<u8> {
    if 0 <= i < split_fields(s).len() {
        split_fields(s)[i]
    } else {
        Seq::empty()
    }
}

proof fn lemma_split_fields_nonempty(s: Seq<u8>)
    ensures
        split_fields(s).len() >= 1,
    decreases s.len(),
{
    if s.len() > 0 {
        lemma_split_fields_nonempty(s.drop_last());
    }
}

/// The bounds `(start, end)` in `b` of each space-separated field of `b[lo..hi]`.
fn field_bounds(b: &[u8], lo: usize, hi: usize) -> (r: Vec<(usize, usize)>)
    requires
        lo <= hi <= b@.len(),
    ensures
        r@.len() == split_fields(b@.subrange(lo as int, hi as int)).len(),
        forall|k: int|
            0 <= k < r@.len() ==> {
                &&& lo <= (#[trigger] r@[k]).0 <= r@[k].1 <= hi
                &&& b@.subrange(r@[k].0 as int, r@[k].1 as int) == split_fields(
                    b@.subrange(lo as int, hi as int),
                )[k]
            },
{
    let mut bounds: Vec<(usize, usize)> = Vec::new();
    let mut start: usize = lo;
    let mut i: usize = lo;
    assert(b@.subrange(lo as int, lo as int) =~= Seq::<u8>::empty());
    assert(b@.subrange(start as int, i as int) =~= Seq::<u8>::empty());
    while i < hi
        invariant
            lo <= start <= i <= hi <= b@.len(),
            split_fields(b@.subrange(lo as int, i as int)).len() == bounds@.len() + 1,
            split_fields(b@.subrange(lo as int, i as int)).last() == b@.subrange(
                start as int,
                i as int,
            ),
            forall|k: int|
                0 <= k < bounds@.len() ==> {
                    &&& lo <= (#[trigger] bounds@[k]).0 <= bounds@[k].1 <= start
                    &&& b@.subrange(bounds@[k].0 as int, bounds@[k].1 as int) == split_fields(
                        b@.subrange(lo as int, i as int),
                    )[k]
                },
        decreases hi - i,
    {
        let ghost prev = b@.subrange(lo as int, i as int);
        let ghost next = b@.subrange(lo as int, i + 1);
        assert(next.drop_last() =~= prev);
        assert(next.last() == b@[i as int]);
        proof {
            lemma_split_fields_nonempty(prev);
        }
        if b[i] == SPACE {
            bounds.push((start, i));
            start = i + 1;
            assert(b@.subrange(start as int, i + 1) =~= Seq::<u8>::empty());
        } else {
            assert(b@.subrange(start as int, i + 1) =~= b@.subrange(start as int, i as int).push(
                b@[i as int],
            ));
        }
        i = i + 1;
    }
    bounds.push((start, hi));
    bounds
}

/// Decodes the numeric field of index `i` among the fields `bounds` of `b`;
/// a missing field reads as zero.
fn field_or_zero(b: &[u8], bounds: &Vec<(usize, usize)>, i: usize, lo: usize, hi: usize) -> (r: i64)
    requires
        lo <= hi <= b@.len(),
        bounds@.len() == split_fields(b@.subrange(lo as int, hi as int)).len(),
        forall|k: int|
            0 <= k < bounds@.len() ==> {
                &&& lo <= (#[trigger] bounds@[k]).0 <= bounds@[k].1 <= hi
                &&& b@.subrange(bounds@[k].0 as int, bounds@[k].1 as int) == split_fields(
                    b@.subrange(lo as int, hi as int),
                )[k]
            },
    ensures
        r == field_value(field_at(b@.subrange(lo as int, hi as int), i as int)),
        in_field_range(r as int),
{
    if i < bounds.len() {
        let (s, e) = bounds[i];
        parse_field(b, s, e)
    } else {
        assert(field_value(Seq::<u8>::empty()) == 0);
        0
    }
}


/// The exact length of a status (telemetry) frame.
pub const TELEMETRY_FRAME_LEN: usize = 47;

/// The exact length of a reference frame.
pub const REFERENCE_FRAME_LEN: usize = 22;

/// The indexed string that holds the status frame.
pub const TELEMETRY_INDEX: i32 = 3;

/// The indexed string that holds the reference frame.
pub const REFERENCE_INDEX: i32 = 29;

/// One decoded status frame. Measurements are in hundredths of their unit:
/// volts, decis of an ampere for the current, hertz for the frequency.
#[derive(Clone, Debug)]
pub struct TelemetryRecord {
    pub input_voltage: i64,
    pub output_voltage_needed: i64,
    pub output_voltage: i64,
    pub current: i64,
    pub frequency: i64,
    pub battery_voltage: i64,
    /// The eight status flags, each the digit of its character (0 for a non-digit).
    pub flags: Vec<u8>,
}

impl TelemetryRecord {
    /// Every channel within the range of a decoded field, and eight flags.
    pub open spec fn wf(&self) -> bool {
        &&& in_field_range(self.input_voltage as int)
        &&& in_field_range(self.output_voltage_needed as int)
        &&& in_field_range(self.output_voltage as int)
        &&& in_field_range(self.current as int)
        &&& in_field_range(self.frequency as int)
        &&& in_field_range(self.battery_voltage as int)
        &&& self.flags@.len() == 8
    }
}

/// The expected values that measurements are compared against, in
/// hundredths of their unit (the current in decis of an ampere).
#[derive(Clone, Copy, Debug, PartialEq, Eq, Structural)]
pub struct ReferenceProfile {
    pub voltage: i64,
    pub current: i64,
    pub battery_voltage: i64,
    pub frequency: i64,
}

impl ReferenceProfile {
    pub open spec fn wf(&self) -> bool {
        &&& in_field_range(self.voltage as int)
        &&& in_field_range(self.current as int)
        &&& in_field_range(self.battery_voltage as int)
        &&& in_field_range(self.frequency as int)
    }

    /// The profile of a 220 V, 50 Hz unit with a 12 V battery and an
    /// expected current of 3 dA.
    pub fn standard() -> (r: ReferenceProfile)
        ensures
            r == (ReferenceProfile {
                voltage: 22000,
                current: 300,
                battery_voltage: 1200,
                frequency: 5000,
            }),
            r.wf(),
    {
        ReferenceProfile { voltage: 22000, current: 300, battery_voltage: 1200, frequency: 5000 }
    }

    /// Whether every value lies within the range of a decoded field.
    pub fn in_range(&self) -> (r: bool)
        ensures
            r == self.wf(),
    {
        -FIELD_BOUND < self.voltage && self.voltage < FIELD_BOUND && -FIELD_BOUND < self.current
            && self.current < FIELD_BOUND && -FIELD_BOUND < self.battery_voltage
            && self.battery_voltage < FIELD_BOUND && -FIELD_BOUND < self.frequency
            && self.frequency < FIELD_BOUND
    }
}

/// The numeric channel of index `i` of a status frame: fields of characters 1 to 31.
pub open spec fn telemetry_channel(b: Seq<u8>, i: int) -> int {
    field_value(field_at(b.subrange(1, 32), i))
}

/// The flags of a status frame: characters 38 to 45.
pub open spec fn telemetry_flags(b: Seq<u8>) -> Seq<u8> {
    Seq::new(8, |k: int| flag_of(b[38 + k]))
}

/// `rec` is what the status frame `b` holds.
pub open spec fn telemetry_of(b: Seq<u8>, rec: TelemetryRecord) -> bool {
    &&& rec.input_voltage == telemetry_channel(b, 0)
    &&& rec.output_voltage_needed == telemetry_channel(b, 1)
    &&& rec.output_voltage == telemetry_channel(b, 2)
    &&& rec.current == telemetry_channel(b, 3)
    &&& rec.frequency == telemetry_channel(b, 4)
    &&& rec.battery_voltage == telemetry_channel(b, 5)
    &&& rec.flags@ == telemetry_flags(b)
}

/// The numeric field of index `i` of a reference frame: fields of characters 1 to 20.
pub open spec fn reference_channel(b: Seq<u8>, i: int) -> int {
    field_value(field_at(b.subrange(1, 21), i))
}

/// The profile that the reference frame `b` holds.
pub open spec fn reference_of(b: Seq<u8>) -> ReferenceProfile {
    ReferenceProfile {
        voltage: reference_channel(b, 0) as i64,
        current: reference_channel(b, 1) as i64,
        battery_voltage: reference_channel(b, 2) as i64,
        frequency: reference_channel(b, 3) as i64,
    }
}

/// Decodes a status frame. A frame of any length but the exact one gives
/// `None`; within a frame of that length, a malformed field reads as zero.
pub fn decode_telemetry(raw: &str) -> (r: Option<TelemetryRecord>)
    ensures
        r is Some <==> raw.spec_bytes().len() == TELEMETRY_FRAME_LEN,
        r matches Some(rec) ==> telemetry_of(raw.spec_bytes(), rec) && rec.wf(),
{
    let b = raw.as_bytes();
    if b.len() != TELEMETRY_FRAME_LEN {
        return None;
    }
    let bounds = field_bounds(b, 1, 32);
    let mut flags: Vec<u8> = Vec::new();
    let mut k: usize = 0;
    while k < 8
        invariant
            k <= 8,
            b@.len() == TELEMETRY_FRAME_LEN,
            flags@ =~= telemetry_flags(b@).take(k as int),
        decreases 8 - k,
    {
        flags.push(flag_value(b[38 + k]));
        k = k + 1;
    }
    assert(flags@ =~= telemetry_flags(b@));
    Some(
        TelemetryRecord {
            input_voltage: field_or_zero(b, &bounds, 0, 1, 32),
            output_voltage_needed: field_or_zero(b, &bounds, 1, 1, 32),
            output_voltage: field_or_zero(b, &bounds, 2, 1, 32),
            current: field_or_zero(b, &bounds, 3, 1, 32),
            frequency: field_or_zero(b, &bounds, 4, 1, 32),
            battery_voltage: field_or_zero(b, &bounds, 5, 1, 32),
            flags,
        },
    )
}

/// Decodes a reference frame. A frame of any length but the exact one gives
/// `None`; within a frame of that length, a malformed field reads as zero.
pub fn decode_reference(raw: &str) -> (r: Option<ReferenceProfile>)
    ensures
        r is Some <==> raw.spec_bytes().len() == REFERENCE_FRAME_LEN,
        r matches Some(p) ==> p == reference_of(raw.spec_bytes()) && p.wf(),
{
    let b = raw.as_bytes();
    if b.len() != REFERENCE_FRAME_LEN {
        return None;
    }
    let bounds = field_bounds(b, 1, 21);
    Some(
        ReferenceProfile {
            voltage: field_or_zero(b, &bounds, 0, 1, 21),
            current: field_or_zero(b, &bounds, 1, 1, 21),
            battery_voltage: field_or_zero(b, &bounds, 2, 1, 21),
            frequency: field_or_zero(b, &bounds, 3, 1, 21),
        },
    )
}


/// Decoding depends on the frame's bytes alone: two decodings of status
/// frames with the same bytes give records with the same channels and flags.
pub proof fn telemetry_decoding_deterministic(
    a: Seq<u8>,
    b: Seq<u8>,
    ra: TelemetryRecord,
    rb: TelemetryRecord,
)
    requires
        a == b,
        telemetry_of(a, ra),
        telemetry_of(b, rb),
    ensures
        ra.input_voltage == rb.input_voltage,
        ra.output_voltage_needed == rb.output_voltage_needed,
        ra.output_voltage == rb.output_voltage,
        ra.current == rb.current,
        ra.frequency == rb.frequency,
        ra.battery_voltage == rb.battery_voltage,
        ra.flags@ == rb.flags@,
{
}

} // verus!
