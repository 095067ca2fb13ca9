//! Instants on the UTC timeline and the wire-shape timestamp.
//!
//! An instant is modelled as whole seconds since the Unix epoch plus a
//! nanosecond remainder.  The module also carries the proleptic Gregorian
//! calendar arithmetic that the diagnostic grammar needs: a fixed-format
//! `YYYY-MM-DD HH:MM:SS` date-time with a numeric UTC-offset suffix is read
//! into an instant, and an instant is rendered back as an RFC 3339 string.
use vstd::prelude::*;
use vstd::string::StringExecFns;

verus! {

/// Earliest second this library models: 0001-01-01T00:00:00Z.
pub const MIN_INSTANT_SECONDS: i64 = -62135596800;

/// Latest second this library models: 9999-12-31T23:59:59Z.
pub const MAX_INSTANT_SECONDS: i64 = 253402300799;

/// The wire shape of a point in time: whole seconds since the Unix epoch
/// and a nanosecond remainder, both signed on the wire.
#[derive(Clone, Copy, Debug, PartialEq, Eq, Structural)]
pub struct Timestamp {
    pub seconds: i64,
    pub nanos: i32,
}

/// An instant on the UTC timeline.
#[derive(Clone, Copy, Debug, PartialEq, Eq, Structural)]
pub struct UtcTime {
    pub seconds: i64,
    pub nanos: u32,
}

impl Timestamp {
    /// A wire timestamp denotes an instant when the nanosecond field is a
    /// proper remainder and the second count lies in the modelled range.
    pub open spec fn convertible(self) -> bool {
        &&& 0 <= self.nanos < 1000000000
        &&& MIN_INSTANT_SECONDS <= self.seconds <= MAX_INSTANT_SECONDS
    }
}

impl UtcTime {
    pub open spec fn wf(self) -> bool {
        &&& self.nanos < 1000000000
        &&& MIN_INSTANT_SECONDS <= self.seconds <= MAX_INSTANT_SECONDS
    }

    /// Strict order of instants: later seconds, or equal seconds and a
    /// later nanosecond remainder.
    pub open spec fn spec_lt(self, other: UtcTime) -> bool {
        self.seconds < other.seconds || (self.seconds == other.seconds && self.nanos < other.nanos)
    }

    pub fn lt(&self, other: &UtcTime) -> (r: bool)
        ensures
            r == self.spec_lt(*other),
    {
        self.seconds < other.seconds || (self.seconds == other.seconds && self.nanos < other.nanos)
    }

    /// An instant the RFC 3339 renderer accepts: second precision, on or
    /// after the epoch, before the year 10000.
    pub open spec fn renderable(self) -> bool {
        &&& self.nanos == 0
        &&& 0 <= self.seconds
        &&& self.seconds < max_utc_seconds()
    }
}

/// The wire shape of an instant.
pub open spec fn spec_to_wire(t: UtcTime) -> Timestamp {
    Timestamp { seconds: t.seconds, nanos: t.nanos as i32 }
}

/// The instant a wire timestamp denotes.
pub open spec fn spec_to_instant(ts: Timestamp) -> UtcTime {
    UtcTime { seconds: ts.seconds, nanos: ts.nanos as u32 }
}

/// Reads a wire timestamp as an instant.
pub fn convert_to_utc_time(ts: Timestamp) -> (r: UtcTime)
    requires
        ts.convertible(),
    ensures
        r == spec_to_instant(ts),
        r.seconds == ts.seconds,
        r.nanos as int == ts.nanos as int,
        r.wf(),
{
    UtcTime { seconds: ts.seconds, nanos: ts.nanos as u32 }
}

/// Writes an instant in the wire shape.
pub fn convert_to_timestamp(t: UtcTime) -> (r: Timestamp)
    requires
        t.wf(),
    ensures
        r == spec_to_wire(t),
        r.seconds == t.seconds,
        r.nanos as int == t.nanos as int,
        r.convertible(),
{
    Timestamp { seconds: t.seconds, nanos: t.nanos as i32 }
}

/// Writing an instant in the wire shape and reading it back is the identity,
/// and the other way round on convertible wire values.
pub proof fn lemma_instant_wire_round_trip(t: UtcTime, ts: Timestamp)
    requires
        t.wf(),
        ts.convertible(),
    ensures
        spec_to_instant(spec_to_wire(t)) == t,
        spec_to_wire(spec_to_instant(ts)) == ts,
        spec_to_wire(t).convertible(),
        spec_to_instant(ts).wf(),
{
}

// ---------------------------------------------------------------------------
// Proleptic Gregorian calendar, days counted from 1970-01-01.
// ---------------------------------------------------------------------------

pub open spec fn is_leap_year(y: int) -> bool {
    (y % 4 == 0 && y % 100 != 0) || y % 400 == 0
}

pub open spec fn days_in_year(y: int) -> int {
    if is_leap_year(y) {
        366
    } else {
        365
    }
}

pub open spec fn days_in_month(y: int, m: int) -> int {
    if m == 2 {
        if is_leap_year(y) {
            29
        } else {
            28
        }
    } else if m == 4 || m == 6 || m == 9 || m == 11 {
        30
    } else {
        31
    }
}

/// Days from 1970-01-01 to the first day of year `y`.
pub open spec fn days_before_year(y: int) -> int
    decreases y - 1970,
{
    if y <= 1970 {
        0
    } else {
        days_before_year(y - 1) + days_in_year(y - 1)
    }
}

/// Days from the first day of year `y` to the first day of its month `m`.
pub open spec fn days_before_month(y: int, m: int) -> int
    decreases m,
{
    if m <= 1 {
        0
    } else {
        days_before_month(y, m - 1) + days_in_month(y, m - 1)
    }
}

/// Seconds after which four-digit years end: 10000-01-01T00:00:00Z.
pub open spec fn max_utc_seconds() -> int {
    days_before_year(10000) * 86400
}

pub proof fn lemma_days_before_year_monotone(y1: int, y2: int)
    requires
        y1 <= y2,
    ensures
        days_before_year(y1) <= days_before_year(y2),
    decreases y2 - y1,
{
    if y1 < y2 {
        lemma_days_before_year_monotone(y1, y2 - 1);
    }
}

pub proof fn lemma_days_before_year_bound(y: int)
    requires
        y >= 1970,
    ensures
        365 * (y - 1970) <= days_before_year(y) <= 366 * (y - 1970),
    decreases y - 1970,
{
    if y > 1970 {
        lemma_days_before_year_bound(y - 1);
    }
}

pub proof fn lemma_days_before_month_bound(y: int, m: int)
    requires
        1 <= m <= 13,
    ensures
        0 <= days_before_month(y, m) <= 31 * (m - 1),
    decreases m,
{
    if m > 1 {
        lemma_days_before_month_bound(y, m - 1);
    }
}

/// The months of a year account for all of its days.
pub proof fn lemma_months_fill_year(y: int)
    ensures
        days_before_month(y, 13) == days_in_year(y),
{
    reveal_with_fuel(days_before_month, 14);
}

pub fn is_leap_year_exec(y: u32) -> (r: bool)
    ensures
        r == is_leap_year(y as int),
{
    (y % 4 == 0 && y % 100 != 0) || y % 400 == 0
}

pub fn days_in_year_exec(y: u32) -> (r: u32)
    ensures
        r as int == days_in_year(y as int),
        365 <= r <= 366,
{
    if is_leap_year_exec(y) {
        366
    } else {
        365
    }
}

pub fn days_in_month_exec(y: u32, m: u32) -> (r: u32)
    ensures
        r as int == days_in_month(y as int, m as int),
        28 <= r <= 31,
{
    if m == 2 {
        if is_leap_year_exec(y) {
            29
        } else {
            28
        }
    } else if m == 4 || m == 6 || m == 9 || m == 11 {
        30
    } else {
        31
    }
}

pub fn days_before_year_exec(y: u32) -> (r: u64)
    requires
        1970 <= y <= 10000,
    ensures
        r as int == days_before_year(y as int),
        r as int <= 366 * (y as int - 1970),
{
    let mut i: u32 = 1970;
    let mut acc: u64 = 0;
    while i < y
        invariant
            1970 <= i <= y <= 10000,
            acc as int == days_before_year(i as int),
            acc as int <= 366 * (i as int - 1970),
        decreases y - i,
    {
        acc = acc + days_in_year_exec(i) as u64;
        i = i + 1;
    }
    acc
}

pub fn days_before_month_exec(y: u32, m: u32) -> (r: u32)
    requires
        1 <= m <= 13,
    ensures
        r as int == days_before_month(y as int, m as int),
        r <= 372,
{
    let mut i: u32 = 1;
    let mut acc: u32 = 0;
    while i < m
        invariant
            1 <= i <= m <= 13,
            acc as int == days_before_month(y as int, i as int),
            acc as int <= 31 * (i as int - 1),
        decreases m - i,
    {
        acc = acc + days_in_month_exec(y, i);
        i = i + 1;
    }
    proof {
        lemma_days_before_month_bound(y as int, m as int);
    }
    acc
}

/// One more than the last renderable second.
pub fn max_utc_seconds_exec() -> (r: i64)
    ensures
        r as int == max_utc_seconds(),
{
    proof {
        lemma_days_before_year_bound(10000);
    }
    let d = days_before_year_exec(10000);
    let r = (d as i64) * 86400;
    r
}

// ---------------------------------------------------------------------------
// Splitting a day count into calendar fields.
// ---------------------------------------------------------------------------

/// Walks years upward from `y`, taking whole years out of `days`.
pub open spec fn split_year_from(days: int, y: int) -> (int, int)
    decreases days,
{
    if days < days_in_year(y) {
        (y, days)
    } else {
        split_year_from(days - days_in_year(y), y + 1)
    }
}

/// Walks months upward from `m`, taking whole months out of `days`.
pub open spec fn split_month_from(y: int, days: int, m: int) -> (int, int)
    decreases 13 - m,
{
    if m >= 12 || days < days_in_month(y, m) {
        (m, days)
    } else {
        split_month_from(y, days - days_in_month(y, m), m + 1)
    }
}

// ---------------------------------------------------------------------------
// The date-time grammar of the conflict diagnostic:
// `YYYY-MM-DD HH:MM:SS` followed by a numeric UTC offset `+HH`, `+HHMM`
// or `+HH:MM` (either sign).  Anything else is a parse failure.
// ---------------------------------------------------------------------------

pub open spec fn spec_is_digit(c: char) -> bool {
    48 <= c as u32 <= 57
}

pub open spec fn digit_val(c: char) -> int {
    c as u32 - 48
}

pub open spec fn two_digit_val(s: Seq<char>, i: int) -> int {
    10 * digit_val(s[i]) + digit_val(s[i + 1])
}

pub open spec fn four_digit_val(s: Seq<char>, i: int) -> int {
    1000 * digit_val(s[i]) + 100 * digit_val(s[i + 1]) + 10 * digit_val(s[i + 2]) + digit_val(
        s[i + 3],
    )
}

/// The calendar fields a date-time string spells out, offset folded to
/// signed seconds.
pub ghost struct CivilTime {
    pub year: int,
    pub month: int,
    pub day: int,
    pub hour: int,
    pub minute: int,
    pub second: int,
    pub offset: int,
}

/// The fixed shape of the grammar: positions of digits and separators,
/// with the three accepted offset spellings.
pub open spec fn datetime_shape(s: Seq<char>) -> bool {
    &&& (s.len() == 22 || s.len() == 24 || s.len() == 25)
    &&& spec_is_digit(s[0])
    &&& spec_is_digit(s[1])
    &&& spec_is_digit(s[2])
    &&& spec_is_digit(s[3])
    &&& s[4] == '-'
    &&& spec_is_digit(s[5])
    &&& spec_is_digit(s[6])
    &&& s[7] == '-'
    &&& spec_is_digit(s[8])
    &&& spec_is_digit(s[9])
    &&& s[10] == ' '
    &&& spec_is_digit(s[11])
    &&& spec_is_digit(s[12])
    &&& s[13] == ':'
    &&& spec_is_digit(s[14])
    &&& spec_is_digit(s[15])
    &&& s[16] == ':'
    &&& spec_is_digit(s[17])
    &&& spec_is_digit(s[18])
    &&& (s[19] == '+' || s[19] == '-')
    &&& spec_is_digit(s[20])
    &&& spec_is_digit(s[21])
    &&& (s.len() == 24 ==> spec_is_digit(s[22]) && spec_is_digit(s[23]))
    &&& (s.len() == 25 ==> s[22] == ':' && spec_is_digit(s[23]) && spec_is_digit(s[24]))
}

pub open spec fn offset_hour_val(s: Seq<char>) -> int {
    two_digit_val(s, 20)
}

pub open spec fn offset_minute_val(s: Seq<char>) -> int {
    if s.len() == 24 {
        two_digit_val(s, 22)
    } else if s.len() == 25 {
        two_digit_val(s, 23)
    } else {
        0
    }
}

/// The calendar fields of a string of the grammar's shape.
pub open spec fn civil_of_seq(s: Seq<char>) -> CivilTime {
    CivilTime {
        year: four_digit_val(s, 0),
        month: two_digit_val(s, 5),
        day: two_digit_val(s, 8),
        hour: two_digit_val(s, 11),
        minute: two_digit_val(s, 14),
        second: two_digit_val(s, 17),
        offset: (if s[19] == '-' {
            -(offset_hour_val(s) * 3600 + offset_minute_val(s) * 60)
        } else {
            offset_hour_val(s) * 3600 + offset_minute_val(s) * 60
        }),
    }
}

/// The field ranges the grammar accepts.  Years before 1970 or after 9999
/// are outside the modelled range and fail safe.
pub open spec fn civil_fields_ok(s: Seq<char>) -> bool {
    let c = civil_of_seq(s);
    &&& 1970 <= c.year <= 9999
    &&& 1 <= c.month <= 12
    &&& 1 <= c.day <= days_in_month(c.year, c.month)
    &&& c.hour <= 23
    &&& c.minute <= 59
    &&& c.second <= 59
    &&& offset_hour_val(s) <= 23
    &&& offset_minute_val(s) <= 59
}

/// The second count of calendar fields, the offset already taken out.
pub open spec fn civil_utc_seconds(c: CivilTime) -> int {
    (days_before_year(c.year) + days_before_month(c.year, c.month) + c.day - 1) * 86400 + c.hour
        * 3600 + c.minute * 60 + c.second - c.offset
}

/// What parsing a date-time string of the diagnostic grammar yields: the
/// instant it denotes, or nothing when the string deviates from the
/// grammar or leaves the modelled range.
pub open spec fn spec_parse_datetime(s: Seq<char>) -> Option<UtcTime> {
    if datetime_shape(s) && civil_fields_ok(s) {
        let n = civil_utc_seconds(civil_of_seq(s));
        if 0 <= n < max_utc_seconds() {
            Some(UtcTime { seconds: n as i64, nanos: 0 })
        } else {
            None
        }
    } else {
        None
    }
}

pub fn is_digit(c: char) -> (r: bool)
    ensures
        r == spec_is_digit(c),
{
    let u = c as u32;
    48 <= u && u <= 57
}

pub fn digit_value(c: char) -> (r: u32)
    requires
        spec_is_digit(c),
    ensures
        r as int == digit_val(c),
        r <= 9,
{
    c as u32 - 48
}

/// Reads a date-time of the diagnostic grammar.  Exactly the strings the
/// grammar describes parse; everything else yields `None`.
pub fn parse_datetime(v: &Vec<char>) -> (r: Option<UtcTime>)
    ensures
        r == spec_parse_datetime(v@),
        (r matches Some(t) ==> t.renderable()),
{
    let n = v.len();
    if !(n == 22 || n == 24 || n == 25) {
        return None;
    }
    if !(is_digit(v[0]) && is_digit(v[1]) && is_digit(v[2]) && is_digit(v[3])) {
        return None;
    }
    if v[4] != '-' {
        return None;
    }
    if !(is_digit(v[5]) && is_digit(v[6])) {
        return None;
    }
    if v[7] != '-' {
        return None;
    }
    if !(is_digit(v[8]) && is_digit(v[9])) {
        return None;
    }
    if v[10] != ' ' {
        return None;
    }
    if !(is_digit(v[11]) && is_digit(v[12])) {
        return None;
    }
    if v[13] != ':' {
        return None;
    }
    if !(is_digit(v[14]) && is_digit(v[15])) {
        return None;
    }
    if v[16] != ':' {
        return None;
    }
    if !(is_digit(v[17]) && is_digit(v[18])) {
        return None;
    }
    if !(v[19] == '+' || v[19] == '-') {
        return None;
    }
    if !(is_digit(v[20]) && is_digit(v[21])) {
        return None;
    }
    let mut om: u32 = 0;
    if n == 24 {
        if !(is_digit(v[22]) && is_digit(v[23])) {
            return None;
        }
        om = 10 * digit_value(v[22]) + digit_value(v[23]);
    } else if n == 25 {
        if v[22] != ':' {
            return None;
        }
        if !(is_digit(v[23]) && is_digit(v[24])) {
            return None;
        }
        om = 10 * digit_value(v[23]) + digit_value(v[24]);
    }
    let year: u32 = 1000 * digit_value(v[0]) + 100 * digit_value(v[1]) + 10 * digit_value(v[2])
        + digit_value(v[3]);
    let month: u32 = 10 * digit_value(v[5]) + digit_value(v[6]);
    let day: u32 = 10 * digit_value(v[8]) + digit_value(v[9]);
    let hour: u32 = 10 * digit_value(v[11]) + digit_value(v[12]);
    let minute: u32 = 10 * digit_value(v[14]) + digit_value(v[15]);
    let second: u32 = 10 * digit_value(v[17]) + digit_value(v[18]);
    let oh: u32 = 10 * digit_value(v[20]) + digit_value(v[21]);
    if !(1970 <= year && year <= 9999) {
        return None;
    }
    if !(1 <= month && month <= 12) {
        return None;
    }
    if !(1 <= day && day <= days_in_month_exec(year, month)) {
        return None;
    }
    if !(hour <= 23 && minute <= 59 && second <= 59) {
        return None;
    }
    if !(oh <= 23 && om <= 59) {
        return None;
    }
    let dby: u64 = days_before_year_exec(year);
    let dbm: u64 = days_before_month_exec(year, month) as u64;
    let days: u64 = dby + dbm + (day as u64 - 1);
    let secs: u64 = days * 86400 + (hour as u64) * 3600 + (minute as u64) * 60 + (second as u64);
    let off_abs: i64 = (oh as i64) * 3600 + (om as i64) * 60;
    let off: i64 = if v[19] == '-' {
        -off_abs
    } else {
        off_abs
    };
    let total: i64 = (secs as i64) - off;
    if total < 0 {
        return None;
    }
    let maxs = max_utc_seconds_exec();
    if total >= maxs {
        return None;
    }
    Some(UtcTime { seconds: total, nanos: 0 })
}

// ---------------------------------------------------------------------------
// Rendering an instant as an RFC 3339 string with a +00:00 suffix.
// ---------------------------------------------------------------------------

pub open spec fn digit_char(d: int) -> char {
    if d == 0 {
        '0'
    } else if d == 1 {
        '1'
    } else if d == 2 {
        '2'
    } else if d == 3 {
        '3'
    } else if d == 4 {
        '4'
    } else if d == 5 {
        '5'
    } else if d == 6 {
        '6'
    } else if d == 7 {
        '7'
    } else if d == 8 {
        '8'
    } else {
        '9'
    }
}

pub open spec fn two_digit_seq(n: int) -> Seq<char> {
    seq![digit_char(n / 10), digit_char(n % 10)]
}

pub open spec fn four_digit_seq(n: int) -> Seq<char> {
    seq![
        digit_char(n / 1000),
        digit_char((n / 100) % 10),
        digit_char((n / 10) % 10),
        digit_char(n % 10),
    ]
}

/// The RFC 3339 rendering of a renderable instant, second precision,
/// always in UTC.
pub open spec fn spec_rfc3339(t: UtcTime) -> Seq<char> {
    let days = t.seconds as int / 86400;
    let sod = t.seconds as int % 86400;
    let yd = split_year_from(days, 1970);
    let md = split_month_from(yd.0, yd.1, 1);
    four_digit_seq(yd.0) + "-"@ + two_digit_seq(md.0) + "-"@ + two_digit_seq(md.1 + 1) + "T"@
        + two_digit_seq(sod / 3600) + ":"@ + two_digit_seq((sod % 3600) / 60) + ":"@
        + two_digit_seq(sod % 60) + "+00:00"@
}

fn digit_str(d: u32) -> (r: &'static str)
    requires
        d <= 9,
    ensures
        r@.len() == 1,
        r@[0] == digit_char(d as int),
{
    proof {
        reveal_strlit("0");
        reveal_strlit("1");
        reveal_strlit("2");
        reveal_strlit("3");
        reveal_strlit("4");
        reveal_strlit("5");
        reveal_strlit("6");
        reveal_strlit("7");
        reveal_strlit("8");
        reveal_strlit("9");
    }
    if d == 0 {
        "0"
    } else if d == 1 {
        "1"
    } else if d == 2 {
        "2"
    } else if d == 3 {
        "3"
    } else if d == 4 {
        "4"
    } else if d == 5 {
        "5"
    } else if d == 6 {
        "6"
    } else if d == 7 {
        "7"
    } else if d == 8 {
        "8"
    } else {
        "9"
    }
}

fn push_two_digits(out: &mut String, n: u32)
    requires
        n <= 99,
    ensures
        final(out)@ == old(out)@ + two_digit_seq(n as int),
{
    out.append(digit_str(n / 10));
    out.append(digit_str(n % 10));
    proof {
        assert(out@ =~= old(out)@ + two_digit_seq(n as int));
    }
}

fn push_four_digits(out: &mut String, n: u32)
    requires
        n <= 9999,
    ensures
        final(out)@ == old(out)@ + four_digit_seq(n as int),
{
    out.append(digit_str(n / 1000));
    out.append(digit_str((n / 100) % 10));
    out.append(digit_str((n / 10) % 10));
    out.append(digit_str(n % 10));
    proof {
        assert(out@ =~= old(out)@ + four_digit_seq(n as int));
    }
}

impl UtcTime {
    /// Renders the instant as `YYYY-MM-DDTHH:MM:SS+00:00`.
    pub fn to_rfc3339(&self) -> (r: String)
        requires
            self.renderable(),
        ensures
            r@ == spec_rfc3339(*self),
    {
        let total = self.seconds as u64;
        let days: u64 = total / 86400;
        let sod: u64 = total % 86400;
        proof {
            assert((days as int) < days_before_year(10000)) by (nonlinear_arith)
                requires
                    total as int == 86400 * (days as int) + (sod as int),
                    0 <= sod < 86400,
                    (total as int) < 86400 * days_before_year(10000),
                    0 <= days,
            ;
        }
        let mut y: u32 = 1970;
        let mut rem: u64 = days;
        while rem >= days_in_year_exec(y) as u64
            invariant
                1970 <= y <= 9999,
                split_year_from(days as int, 1970) == split_year_from(rem as int, y as int),
                days_before_year(y as int) + rem as int == days as int,
                (days as int) < days_before_year(10000),
            decreases rem,
        {
            let diy = days_in_year_exec(y);
            proof {
                assert(days_before_year(y as int + 1) == days_before_year(y as int) + days_in_year(
                    y as int,
                ));
                lemma_days_before_year_monotone(y as int + 1, 10000);
                if y as int + 1 > 9999 {
                    assert(days_before_year(10000) <= days as int);
                }
            }
            rem = rem - diy as u64;
            y = y + 1;
        }
        let doy: u32 = rem as u32;
        let mut m: u32 = 1;
        let mut remd: u32 = doy;
        proof {
            assert(split_month_from(y as int, doy as int, 1) == split_month_from(
                y as int,
                remd as int,
                m as int,
            ));
        }
        while m < 12 && remd >= days_in_month_exec(y, m)
            invariant
                1 <= m <= 12,
                split_month_from(y as int, doy as int, 1) == split_month_from(
                    y as int,
                    remd as int,
                    m as int,
                ),
                days_before_month(y as int, m as int) + remd as int == doy as int,
                (doy as int) < days_in_year(y as int),
                1970 <= y <= 9999,
            decreases 12 - m,
        {
            let dim = days_in_month_exec(y, m);
            remd = remd - dim;
            m = m + 1;
        }
        proof {
            lemma_months_fill_year(y as int);
            assert(days_before_month(y as int, 13int) == days_before_month(y as int, 12int)
                + days_in_month(y as int, 12int));
            assert(remd <= 30 || (remd as int) < days_in_month(y as int, m as int));
        }
        let day: u32 = remd + 1;
        let h: u32 = (sod / 3600) as u32;
        let mi: u32 = ((sod % 3600) / 60) as u32;
        let sec: u32 = (sod % 60) as u32;
        let mut out = String::new();
        push_four_digits(&mut out, y);
        out.append("-");
        push_two_digits(&mut out, m);
        out.append("-");
        push_two_digits(&mut out, day);
        out.append("T");
        push_two_digits(&mut out, h);
        out.append(":");
        push_two_digits(&mut out, mi);
        out.append(":");
        push_two_digits(&mut out, sec);
        out.append("+00:00");
        proof {
            assert(out@ =~= spec_rfc3339(*self));
        }
        out
    }
}

} // verus!
