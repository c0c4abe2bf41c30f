//! CP56Time2a timestamp codec: the protocol's seven-byte binary timestamp.
//!
//! A millisecond count since the Unix epoch is broken down, in the proleptic
//! Gregorian calendar at UTC, into milliseconds within the minute, minute,
//! hour, day of month, day of week, month and two-digit year, and packed into
//! seven bytes: the sub-minute milliseconds little-endian in bytes 0 and 1,
//! the minute in byte 2 (validity flag clear), the hour in byte 3 (summer
//! time flag clear), day of month in the low five bits and day of week in the
//! high three bits of byte 4, the month in byte 5 and the year within the
//! century in byte 6.

use vstd::prelude::*;

verus! {

// ---------------------------------------------------------------------------
// Calendar model
// ---------------------------------------------------------------------------

/// Gregorian leap-year rule.
pub open spec fn is_leap_year(y: int) -> bool {
    (y % 4 == 0 && y % 100 != 0) || y % 400 == 0
}

/// Length in days of a year of the given kind.
pub open spec fn year_len(leap: bool) -> int {
    if leap {
        366
    } else {
        365
    }
}

/// Length in days of the given year.
pub open spec fn days_in_year(y: int) -> int {
    year_len(is_leap_year(y))
}

/// Days of the year that pass before month `m` begins (month 1 through 12).
pub open spec fn days_before_month(leap: bool, m: int) -> int {
    let base: int = if m == 1 {
        0
    } else if m == 2 {
        31
    } else if m == 3 {
        59
    } else if m == 4 {
        90
    } else if m == 5 {
        120
    } else if m == 6 {
        151
    } else if m == 7 {
        181
    } else if m == 8 {
        212
    } else if m == 9 {
        243
    } else if m == 10 {
        273
    } else if m == 11 {
        304
    } else {
        334
    };
    if leap && m > 2 {
        base + 1
    } else {
        base
    }
}

/// The month (1 through 12) that contains day `yday` of the year, counting
/// days from zero.
pub open spec fn month_of_yday(leap: bool, yday: int) -> int {
    if yday < days_before_month(leap, 2) {
        1
    } else if yday < days_before_month(leap, 3) {
        2
    } else if yday < days_before_month(leap, 4) {
        3
    } else if yday < days_before_month(leap, 5) {
        4
    } else if yday < days_before_month(leap, 6) {
        5
    } else if yday < days_before_month(leap, 7) {
        6
    } else if yday < days_before_month(leap, 8) {
        7
    } else if yday < days_before_month(leap, 9) {
        8
    } else if yday < days_before_month(leap, 10) {
        9
    } else if yday < days_before_month(leap, 11) {
        10
    } else if yday < days_before_month(leap, 12) {
        11
    } else {
        12
    }
}

/// The day of the month (1-based) of day `yday` of the year.
pub open spec fn day_of_month_of_yday(leap: bool, yday: int) -> int {
    yday - days_before_month(leap, month_of_yday(leap, yday)) + 1
}

/// The year that contains the day `days` years after the start of year `y`,
/// walking forward one year at a time.
pub open spec fn year_of_days(y: int, days: int) -> int
    recommends
        days >= 0,
    decreases days,
{
    if days < days_in_year(y) {
        y
    } else {
        year_of_days(y + 1, days - days_in_year(y))
    }
}

/// The day within its year (counted from zero) of the day `days` days after
/// the start of year `y`.
pub open spec fn yday_of_days(y: int, days: int) -> int
    recommends
        days >= 0,
    decreases days,
{
    if days < days_in_year(y) {
        days
    } else {
        yday_of_days(y + 1, days - days_in_year(y))
    }
}

// ---------------------------------------------------------------------------
// Timestamp fields of a millisecond epoch value
// ---------------------------------------------------------------------------

/// Whole days since 1970-01-01.
pub open spec fn epoch_days(ms: u64) -> int {
    ms as int / 86400000
}

/// Milliseconds within the minute, 0 through 59999.
pub open spec fn ts_millisecond(ms: u64) -> int {
    ms as int % 60000
}

/// Minute of the hour, 0 through 59.
pub open spec fn ts_minute(ms: u64) -> int {
    (ms as int / 60000) % 60
}

/// Hour of the day, 0 through 23.
pub open spec fn ts_hour(ms: u64) -> int {
    (ms as int / 3600000) % 24
}

/// Full calendar year (1970 or later).
pub open spec fn ts_year(ms: u64) -> int {
    year_of_days(1970, epoch_days(ms))
}

/// Day of the year, counted from zero.
pub open spec fn ts_yday(ms: u64) -> int {
    yday_of_days(1970, epoch_days(ms))
}

/// Month of the year, 1 through 12.
pub open spec fn ts_month(ms: u64) -> int {
    month_of_yday(is_leap_year(ts_year(ms)), ts_yday(ms))
}

/// Day of the month, 1 through 31.
pub open spec fn ts_day_of_month(ms: u64) -> int {
    day_of_month_of_yday(is_leap_year(ts_year(ms)), ts_yday(ms))
}

/// Day of the week, 1 (Monday) through 7 (Sunday); 1970-01-01 was a Thursday.
pub open spec fn ts_day_of_week(ms: u64) -> int {
    (epoch_days(ms) + 3) % 7 + 1
}

/// The seven-byte CP56Time2a encoding of a millisecond epoch value, with the
/// validity and summer-time flags clear.
pub open spec fn encode_of(ms: u64) -> Seq<u8> {
    seq![
        (ts_millisecond(ms) % 256) as u8,
        (ts_millisecond(ms) / 256) as u8,
        ts_minute(ms) as u8,
        ts_hour(ms) as u8,
        (ts_day_of_month(ms) + 32 * ts_day_of_week(ms)) as u8,
        ts_month(ms) as u8,
        (ts_year(ms) % 100) as u8,
    ]
}

// ---------------------------------------------------------------------------
// Field decoding of a seven-byte value
// ---------------------------------------------------------------------------

/// Milliseconds within the minute read back from an encoding.
pub open spec fn decoded_millisecond(b: Seq<u8>) -> int {
    b[0] + 256 * b[1]
}

/// Minute read back from an encoding (the low six bits of byte 2).
pub open spec fn decoded_minute(b: Seq<u8>) -> int {
    (b[2] as int) % 64
}

/// Hour read back from an encoding (the low five bits of byte 3).
pub open spec fn decoded_hour(b: Seq<u8>) -> int {
    (b[3] as int) % 32
}

/// Day of the month read back from an encoding (the low five bits of byte 4).
pub open spec fn decoded_day_of_month(b: Seq<u8>) -> int {
    (b[4] as int) % 32
}

/// Day of the week read back from an encoding (the high three bits of byte 4).
pub open spec fn decoded_day_of_week(b: Seq<u8>) -> int {
    (b[4] as int) / 32
}

/// Month read back from an encoding (the low four bits of byte 5).
pub open spec fn decoded_month(b: Seq<u8>) -> int {
    (b[5] as int) % 16
}

/// Year within the century read back from an encoding (the low seven bits of
/// byte 6).
pub open spec fn decoded_year(b: Seq<u8>) -> int {
    (b[6] as int) % 128
}

// ---------------------------------------------------------------------------
// Range and round-trip laws
// ---------------------------------------------------------------------------

/// Walking the years forward never leaves the day index outside the year it
/// lands in.
proof fn lemma_year_walk(y: int, days: int)
    requires
        days >= 0,
    ensures
        year_of_days(y, days) >= y,
        0 <= yday_of_days(y, days) < days_in_year(year_of_days(y, days)),
    decreases days,
{
    if days < days_in_year(y) {
    } else {
        lemma_year_walk(y + 1, days - days_in_year(y));
    }
}

/// A day index inside a year falls in a month between 1 and 12, on a day of
/// the month between 1 and 31.
proof fn lemma_yday_fields(leap: bool, yday: int)
    requires
        0 <= yday < year_len(leap),
    ensures
        1 <= month_of_yday(leap, yday) <= 12,
        days_before_month(leap, month_of_yday(leap, yday)) <= yday,
        1 <= day_of_month_of_yday(leap, yday) <= 31,
{
}

/// Every field of the calendar breakdown lies in its protocol range, for any
/// millisecond epoch value.
pub proof fn lemma_fields_in_range(ms: u64)
    ensures
        0 <= ts_millisecond(ms) < 60000,
        0 <= ts_minute(ms) < 60,
        0 <= ts_hour(ms) < 24,
        1970 <= ts_year(ms),
        0 <= ts_yday(ms) < days_in_year(ts_year(ms)),
        1 <= ts_month(ms) <= 12,
        1 <= ts_day_of_month(ms) <= 31,
        1 <= ts_day_of_week(ms) <= 7,
{
    lemma_year_walk(1970, epoch_days(ms));
    lemma_yday_fields(is_leap_year(ts_year(ms)), ts_yday(ms));
}

/// Law: decoding the encoding of any millisecond epoch value gives back
/// exactly the calendar breakdown of that value (the year reduced to the
/// century, as the format carries only two digits of it).
pub proof fn lemma_encode_roundtrip(ms: u64)
    ensures
        encode_of(ms).len() == 7,
        decoded_millisecond(encode_of(ms)) == ts_millisecond(ms),
        decoded_minute(encode_of(ms)) == ts_minute(ms),
        decoded_hour(encode_of(ms)) == ts_hour(ms),
        decoded_day_of_month(encode_of(ms)) == ts_day_of_month(ms),
        decoded_day_of_week(encode_of(ms)) == ts_day_of_week(ms),
        decoded_month(encode_of(ms)) == ts_month(ms),
        decoded_year(encode_of(ms)) == ts_year(ms) % 100,
{
    lemma_fields_in_range(ms);
    let m = ts_millisecond(ms);
    assert(m == 256 * (m / 256) + m % 256) by (nonlinear_arith);
    assert(m / 256 < 256) by (nonlinear_arith)
        requires
            0 <= m < 60000,
    ;
    let dom = ts_day_of_month(ms);
    let dow = ts_day_of_week(ms);
    assert((dom + 32 * dow) % 32 == dom && (dom + 32 * dow) / 32 == dow) by (nonlinear_arith)
        requires
            1 <= dom <= 31 && 1 <= dow <= 7,
    ;
}

// ---------------------------------------------------------------------------
// Executable encoder
// ---------------------------------------------------------------------------

/// Gregorian leap-year test.
fn leap_year(y: u64) -> (r: bool)
    ensures
        r == is_leap_year(y as int),
{
    (y % 4 == 0 && y % 100 != 0) || y % 400 == 0
}

/// Length of the given year in days.
fn year_length(y: u64) -> (r: u64)
    ensures
        r as int == days_in_year(y as int),
{
    if leap_year(y) {
        366
    } else {
        365
    }
}

/// Days of the year that pass before the given month begins.
fn month_start(leap: bool, m: u8) -> (r: u64)
    requires
        1 <= m <= 12,
    ensures
        r as int == days_before_month(leap, m as int),
{
    let e: u64 = if leap && m > 2 {
        1
    } else {
        0
    };
    if m == 1 {
        0
    } else if m == 2 {
        31
    } else if m == 3 {
        59 + e
    } else if m == 4 {
        90 + e
    } else if m == 5 {
        120 + e
    } else if m == 6 {
        151 + e
    } else if m == 7 {
        181 + e
    } else if m == 8 {
        212 + e
    } else if m == 9 {
        243 + e
    } else if m == 10 {
        273 + e
    } else if m == 11 {
        304 + e
    } else {
        334 + e
    }
}

/// The month that contains the given day of the year.
fn month_from_yday(leap: bool, yd: u64) -> (m: u8)
    requires
        yd < 366,
    ensures
        m as int == month_of_yday(leap, yd as int),
{
    let e: u64 = if leap {
        1
    } else {
        0
    };
    if yd < 31 {
        1
    } else if yd < 59 + e {
        2
    } else if yd < 90 + e {
        3
    } else if yd < 120 + e {
        4
    } else if yd < 151 + e {
        5
    } else if yd < 181 + e {
        6
    } else if yd < 212 + e {
        7
    } else if yd < 243 + e {
        8
    } else if yd < 273 + e {
        9
    } else if yd < 304 + e {
        10
    } else if yd < 334 + e {
        11
    } else {
        12
    }
}

/// Packs a millisecond epoch value into the seven-byte CP56Time2a encoding.
fn encode_cp56(ms: u64) -> (r: [u8; 7])
    ensures
        r@ == encode_of(ms),
{
    proof {
        lemma_fields_in_range(ms);
    }
    let msum: u16 = (ms % 60000) as u16;
    let minute: u8 = ((ms / 60000) % 60) as u8;
    let hour: u8 = ((ms / 3600000) % 24) as u8;
    let total_days: u64 = ms / 86400000;
    assert(total_days < 0x4000000000) by (nonlinear_arith)
        requires
            total_days == ms / 86400000 && ms <= u64::MAX,
    ;
    let dow: u8 = ((total_days + 3) % 7 + 1) as u8;
    let ghost days0: int = total_days as int;
    let mut days: u64 = total_days;
    let mut year: u64 = 1970;
    loop
        invariant
            1970 <= year,
            days <= days0 < 0x4000000000,
            year as int - 1970 <= days0 - days as int,
            year_of_days(1970, days0) == year_of_days(year as int, days as int),
            yday_of_days(1970, days0) == yday_of_days(year as int, days as int),
        ensures
            year as int == year_of_days(1970, days0),
            days as int == yday_of_days(1970, days0),
            (days as int) < days_in_year(year as int),
        decreases days,
    {
        let len: u64 = year_length(year);
        if days < len {
            break;
        }
        days = days - len;
        year = year + 1;
    }
    proof {
        lemma_year_walk(1970, days0);
        lemma_yday_fields(is_leap_year(year as int), days as int);
    }
    let leap: bool = leap_year(year);
    let month: u8 = month_from_yday(leap, days);
    let start: u64 = month_start(leap, month);
    let dom: u8 = (days - start + 1) as u8;
    let day_byte: u8 = dom + 32 * dow;
    let year_byte: u8 = (year % 100) as u8;
    let r: [u8; 7] = [(msum % 256) as u8, (msum / 256) as u8, minute, hour, day_byte, month,
        year_byte];
    proof {
        assert(r@ =~= encode_of(ms));
    }
    r
}

// ---------------------------------------------------------------------------
// The timestamp value
// ---------------------------------------------------------------------------

/// An immutable seven-byte CP56Time2a timestamp, ready to hand to the engine.
#[derive(Clone, Copy, Debug, PartialEq, Eq)]
pub struct Timestamp {
    encoded: [u8; 7],
}

impl View for Timestamp {
    type V = Seq<u8>;

    closed spec fn view(&self) -> Seq<u8> {
        self.encoded@
    }
}

impl Timestamp {
    /// Encodes a millisecond epoch value. Deterministic: the result is
    /// exactly `encode_of(ms)`, so equal inputs give byte-identical outputs.
    pub fn from_epoch_ms(ms: u64) -> (r: Timestamp)
        ensures
            r@ == encode_of(ms),
    {
        Timestamp { encoded: encode_cp56(ms) }
    }

    /// Reads the wall clock and encodes it along the same path as
    /// [`Timestamp::from_epoch_ms`].
    pub fn now_ms() -> (r: Timestamp)
        ensures
            exists|ms: u64| r@ == encode_of(ms),
    {
        let ms: u64 = crate::hal::get_time_in_ms();
        let r = Timestamp::from_epoch_ms(ms);
        proof {
            assert(r@ == encode_of(ms));
        }
        r
    }

    /// The raw seven bytes of the encoding.
    pub fn bytes(&self) -> (r: [u8; 7])
        ensures
            r@ == self@,
    {
        self.encoded
    }

    /// Milliseconds within the minute.
    pub fn millisecond(&self) -> (r: u16)
        ensures
            r as int == decoded_millisecond(self@),
    {
        self.encoded[0] as u16 + 256 * (self.encoded[1] as u16)
    }

    /// Minute of the hour.
    pub fn minute(&self) -> (r: u8)
        ensures
            r as int == decoded_minute(self@),
    {
        self.encoded[2] % 64
    }

    /// Hour of the day.
    pub fn hour(&self) -> (r: u8)
        ensures
            r as int == decoded_hour(self@),
    {
        self.encoded[3] % 32
    }

    /// Day of the month.
    pub fn day_of_month(&self) -> (r: u8)
        ensures
            r as int == decoded_day_of_month(self@),
    {
        self.encoded[4] % 32
    }

    /// Day of the week, 1 (Monday) through 7 (Sunday).
    pub fn day_of_week(&self) -> (r: u8)
        ensures
            r as int == decoded_day_of_week(self@),
    {
        self.encoded[4] / 32
    }

    /// Month of the year.
    pub fn month(&self) -> (r: u8)
        ensures
            r as int == decoded_month(self@),
    {
        self.encoded[5] % 16
    }

    /// Year within the century.
    pub fn year(&self) -> (r: u8)
        ensures
            r as int == decoded_year(self@),
    {
        self.encoded[6] % 128
    }
}

impl Default for Timestamp {
    /// The all-zero placeholder value: not a meaningful timestamp, only a
    /// value to hold before explicit construction.
    fn default() -> (r: Timestamp)
        ensures
            r@.len() == 7,
            forall|i: int| 0 <= i < 7 ==> r@[i] == 0u8,
    {
        Timestamp { encoded: [0, 0, 0, 0, 0, 0, 0] }
    }
}

} // verus!
