use vstd::prelude::*;
use vstd::string::StringExecFns;
use crate::digits::{pad2, pad4, push_pad2, push_pad4};

verus! {

/// A wall-clock time of day with no attached calendar date.
#[derive(Clone, Copy, PartialEq, Eq, Structural, Debug)]
pub struct TimeOfDay {
    pub hour: u8,
    pub minute: u8,
}

impl TimeOfDay {
    pub open spec fn valid(self) -> bool {
        self.hour < 24 && self.minute < 60
    }

    /// Seconds elapsed since midnight.
    pub open spec fn spec_seconds(self) -> int {
        self.hour * 3600 + self.minute * 60
    }

    pub fn new(hour: u8, minute: u8) -> (r: Option<TimeOfDay>)
        ensures
            r is Some <==> (hour < 24 && minute < 60),
            r matches Some(t) ==> t == (TimeOfDay { hour, minute }) && t.valid(),
    {
        if hour < 24 && minute < 60 {
            Some(TimeOfDay { hour, minute })
        } else {
            None
        }
    }

    pub fn check_valid(self) -> (r: bool)
        ensures
            r == self.valid(),
    {
        self.hour < 24 && self.minute < 60
    }

    pub fn seconds(self) -> (r: u32)
        requires
            self.valid(),
        ensures
            r == self.spec_seconds(),
    {
        self.hour as u32 * 3600 + self.minute as u32 * 60
    }
}

pub open spec fn is_leap_year(y: int) -> bool {
    y % 4 == 0 && (y % 100 != 0 || y % 400 == 0)
}

pub open spec fn spec_days_in_month(y: int, m: int) -> int {
    if m == 2 {
        if is_leap_year(y) {
            29
        } else {
            28
        }
    } else if m == 4 || m == 6 || m == 9 || m == 11 {
        30
    } else {
        31
    }
}

/// A calendar date.
#[derive(Clone, Copy, PartialEq, Eq, Structural, Debug)]
pub struct Date {
    pub year: u16,
    pub month: u8,
    pub day: u8,
}

impl Date {
    /// A calendar-valid date in the range the library can format.
    pub open spec fn wf(self) -> bool {
        &&& 1600 <= self.year <= 9999
        &&& 1 <= self.month <= 12
        &&& 1 <= self.day <= spec_days_in_month(self.year as int, self.month as int)
    }

    /// Dates an entry may be composed on: a day of margin stays formattable.
    pub open spec fn composable(self) -> bool {
        self.wf() && 1601 <= self.year <= 9998
    }
}

pub fn days_in_month(year: u16, month: u8) -> (r: u8)
    requires
        1 <= month <= 12,
    ensures
        r == spec_days_in_month(year as int, month as int),
{
    if month == 2 {
        if year % 4 == 0 && (year % 100 != 0 || year % 400 == 0) {
            29
        } else {
            28
        }
    } else if month == 4 || month == 6 || month == 9 || month == 11 {
        30
    } else {
        31
    }
}

/// Builds a date from plain values, checking calendar validity.
pub fn date_from_parts(year: i64, month: i64, day: i64) -> (r: Option<Date>)
    ensures
        r is Some <==> (1601 <= year <= 9998 && 1 <= month <= 12 && 1 <= day
            <= spec_days_in_month(year as int, month as int)),
        r matches Some(d) ==> d == (Date { year: year as u16, month: month as u8, day: day as u8 })
            && d.composable(),
{
    if 1601 <= year && year <= 9998 && 1 <= month && month <= 12 {
        let dim = days_in_month(year as u16, month as u8);
        if 1 <= day && day <= dim as i64 {
            Some(Date { year: year as u16, month: month as u8, day: day as u8 })
        } else {
            None
        }
    } else {
        None
    }
}

/// The calendar day after a date.
pub open spec fn spec_next_date(d: Date) -> Date {
    if d.day < spec_days_in_month(d.year as int, d.month as int) {
        Date { year: d.year, month: d.month, day: (d.day + 1) as u8 }
    } else if d.month < 12 {
        Date { year: d.year, month: (d.month + 1) as u8, day: 1 }
    } else {
        Date { year: (d.year + 1) as u16, month: 1, day: 1 }
    }
}

/// The calendar day before a date.
pub open spec fn spec_prev_date(d: Date) -> Date {
    if d.day > 1 {
        Date { year: d.year, month: d.month, day: (d.day - 1) as u8 }
    } else if d.month > 1 {
        Date {
            year: d.year,
            month: (d.month - 1) as u8,
            day: spec_days_in_month(d.year as int, d.month as int - 1) as u8,
        }
    } else {
        Date { year: (d.year - 1) as u16, month: 12, day: 31 }
    }
}

pub fn next_date(d: Date) -> (r: Date)
    requires
        d.wf(),
        d.year <= 9998,
    ensures
        r == spec_next_date(d),
        r.wf(),
{
    let dim = days_in_month(d.year, d.month);
    if d.day < dim {
        Date { year: d.year, month: d.month, day: d.day + 1 }
    } else if d.month < 12 {
        Date { year: d.year, month: d.month + 1, day: 1 }
    } else {
        Date { year: d.year + 1, month: 1, day: 1 }
    }
}

pub fn prev_date(d: Date) -> (r: Date)
    requires
        d.wf(),
        d.year >= 1601,
    ensures
        r == spec_prev_date(d),
        r.wf(),
{
    if d.day > 1 {
        Date { year: d.year, month: d.month, day: d.day - 1 }
    } else if d.month > 1 {
        let dim = days_in_month(d.year, d.month - 1);
        Date { year: d.year, month: d.month - 1, day: dim }
    } else {
        Date { year: d.year - 1, month: 12, day: 31 }
    }
}

/// Strict lexicographic order on dates.
pub open spec fn date_lt(a: Date, b: Date) -> bool {
    ||| a.year < b.year
    ||| (a.year == b.year && a.month < b.month)
    ||| (a.year == b.year && a.month == b.month && a.day < b.day)
}

/// A moment in UTC: a calendar date and the second of that day.
#[derive(Clone, Copy, PartialEq, Eq, Structural, Debug)]
pub struct Moment {
    pub date: Date,
    pub sod: u32,
}

impl Moment {
    pub open spec fn wf(self) -> bool {
        self.date.wf() && self.sod < 86400
    }
}

/// Order on moments: earlier date, or the same date and no later second.
pub open spec fn moment_le(a: Moment, b: Moment) -> bool {
    date_lt(a.date, b.date) || (a.date == b.date && a.sod <= b.sod)
}

/// The UTC moment of a local calendar date and wall-clock time, for a
/// local-minus-UTC offset given in seconds.
pub open spec fn spec_compose(date: Date, t: TimeOfDay, off: int) -> Moment {
    let tsec = t.spec_seconds() - off;
    if tsec < 0 {
        Moment { date: spec_prev_date(date), sod: (tsec + 86400) as u32 }
    } else if tsec >= 86400 {
        Moment { date: spec_next_date(date), sod: (tsec - 86400) as u32 }
    } else {
        Moment { date, sod: tsec as u32 }
    }
}

/// Combines a local date and wall-clock time into the UTC moment, applying
/// the given local-minus-UTC offset in seconds.
pub fn compose_with_offset(date: Date, t: TimeOfDay, off: i64) -> (r: Moment)
    requires
        date.composable(),
        t.valid(),
        -86400 < off < 86400,
    ensures
        r == spec_compose(date, t, off as int),
        r.wf(),
{
    let tsec: i64 = t.seconds() as i64 - off;
    if tsec < 0 {
        Moment { date: prev_date(date), sod: (tsec + 86400) as u32 }
    } else if tsec >= 86400 {
        Moment { date: next_date(date), sod: (tsec - 86400) as u32 }
    } else {
        Moment { date, sod: tsec as u32 }
    }
}

/// Yesterday is lexicographically before today.
pub proof fn lemma_prev_date_lt(d: Date)
    requires
        d.wf(),
        d.year >= 1601,
    ensures
        date_lt(spec_prev_date(d), d),
{
}

/// Tomorrow is lexicographically after today.
pub proof fn lemma_next_date_gt(d: Date)
    requires
        d.wf(),
        d.year <= 9998,
    ensures
        date_lt(d, spec_next_date(d)),
{
}

/// Composing two wall-clock times on one date with one offset keeps their
/// order: the earlier time of day gives the earlier UTC moment.
pub proof fn lemma_compose_monotone(date: Date, t1: TimeOfDay, t2: TimeOfDay, off: int)
    requires
        date.composable(),
        t1.valid(),
        t2.valid(),
        -86400 < off < 86400,
        t1.spec_seconds() <= t2.spec_seconds(),
    ensures
        moment_le(spec_compose(date, t1, off), spec_compose(date, t2, off)),
{
    lemma_prev_date_lt(date);
    lemma_next_date_gt(date);
}

/// RFC3339 rendering with millisecond precision and a UTC suffix.
pub open spec fn spec_rfc3339(m: Moment) -> Seq<char> {
    pad4(m.date.year as int) + seq!['-'] + pad2(m.date.month as int) + seq!['-'] + pad2(
        m.date.day as int,
    ) + seq!['T'] + pad2(m.sod as int / 3600) + seq![':'] + pad2((m.sod as int / 60) % 60) + seq![
        ':',
    ] + pad2(m.sod as int % 60) + seq!['.', '0', '0', '0', 'Z']
}

pub fn rfc3339_millis(m: Moment) -> (r: String)
    requires
        m.wf(),
    ensures
        r@ == spec_rfc3339(m),
{
    proof {
        reveal_strlit("-");
        reveal_strlit("T");
        reveal_strlit(":");
        reveal_strlit(".000Z");
    }
    let mut s = String::new();
    push_pad4(&mut s, m.date.year as u32);
    s.append("-");
    push_pad2(&mut s, m.date.month as u32);
    s.append("-");
    push_pad2(&mut s, m.date.day as u32);
    s.append("T");
    push_pad2(&mut s, m.sod / 3600);
    s.append(":");
    push_pad2(&mut s, (m.sod / 60) % 60);
    s.append(":");
    push_pad2(&mut s, m.sod % 60);
    s.append(".000Z");
    proof {
        assert(s@ =~= spec_rfc3339(m));
    }
    s
}

/// Relies on chrono's `Local::now` and the `Datelike` accessors of
/// `NaiveDate`: the returned month is in 1..=12 and the day in 1..=31.
#[verifier::external_body]
pub(crate) fn current_local_date_parts() -> (r: (i64, i64, i64))
    ensures
        1 <= r.1 <= 12,
        1 <= r.2 <= 31,
{
    let today = chrono::Local::now().date_naive();
    (
        chrono::Datelike::year(&today) as i64,
        chrono::Datelike::month(&today) as i64,
        chrono::Datelike::day(&today) as i64,
    )
}

/// Relies on chrono's `FixedOffset`: the local-minus-UTC offset in seconds is
/// strictly within one day in either direction.
#[verifier::external_body]
pub(crate) fn local_offset_seconds() -> (r: i64)
    ensures
        -86400 < r < 86400,
{
    let now = chrono::Local::now();
    chrono::Offset::fix(now.offset()).local_minus_utc() as i64
}

/// The machine's current local calendar date, if it lies in the range the
/// library can compose on.
pub fn current_local_date() -> (r: Option<Date>)
    ensures
        r matches Some(d) ==> d.composable(),
{
    let (y, m, d) = current_local_date_parts();
    date_from_parts(y, m, d)
}

/// Combines an explicitly supplied calendar date with a wall-clock time,
/// interpreting the pair in the machine's current UTC offset.
pub fn compose_on(date: Date, t: TimeOfDay) -> (r: Moment)
    requires
        date.composable(),
        t.valid(),
    ensures
        exists|off: int| (-86400 < off < 86400) && r == spec_compose(date, t, off),
        r.wf(),
{
    let off = local_offset_seconds();
    let m = compose_with_offset(date, t, off);
    proof {
        let ghost offi: int = off as int;
        assert(offi > -86400 && offi < 86400);
        assert(m == spec_compose(date, t, offi));
    }
    m
}

/// Combines the current local calendar date with a wall-clock time. Returns
/// no moment only when the machine's clock is outside the composable range.
pub fn compose_today(t: TimeOfDay) -> (r: Option<Moment>)
    requires
        t.valid(),
    ensures
        r matches Some(m) ==> m.wf() && exists|d: Date, off: int|
            d.composable() && (-86400 < off < 86400) && m == spec_compose(d, t, off),
{
    match current_local_date() {
        Some(d) => {
            let m = compose_on(d, t);
            Some(m)
        },
        None => None,
    }
}

/// Composes a start and an end wall-clock time against one date and one
/// offset, so that the two UTC moments are ordered like the times of day.
pub fn compose_pair_on(date: Date, t1: TimeOfDay, t2: TimeOfDay) -> (r: (Moment, Moment))
    requires
        date.composable(),
        t1.valid(),
        t2.valid(),
        t1.spec_seconds() <= t2.spec_seconds(),
    ensures
        r.0.wf(),
        r.1.wf(),
        moment_le(r.0, r.1),
        exists|off: int|
            (-86400 < off < 86400) && r.0 == spec_compose(date, t1, off) && r.1 == spec_compose(
                date,
                t2,
                off,
            ),
{
    let off = local_offset_seconds();
    let m1 = compose_with_offset(date, t1, off);
    let m2 = compose_with_offset(date, t2, off);
    proof {
        lemma_compose_monotone(date, t1, t2, off as int);
        let ghost offi: int = off as int;
        assert(offi > -86400 && offi < 86400);
        assert(m1 == spec_compose(date, t1, offi));
        assert(m2 == spec_compose(date, t2, offi));
    }
    (m1, m2)
}

/// Composes a start and an end wall-clock time against the current local
/// date. Returns no pair only when the clock is outside the composable range.
pub fn compose_pair_today(t1: TimeOfDay, t2: TimeOfDay) -> (r: Option<(Moment, Moment)>)
    requires
        t1.valid(),
        t2.valid(),
        t1.spec_seconds() <= t2.spec_seconds(),
    ensures
        r matches Some(p) ==> p.0.wf() && p.1.wf() && moment_le(p.0, p.1) && exists|
            d: Date,
            off: int,
        |
            d.composable() && (-86400 < off < 86400) && p.0 == spec_compose(d, t1, off) && p.1
                == spec_compose(d, t2, off),
{
    match current_local_date() {
        Some(d) => {
            let p = compose_pair_on(d, t1, t2);
            proof {
                let off = choose|off: int|
                    (-86400 < off < 86400) && p.0 == spec_compose(d, t1, off) && p.1
                        == spec_compose(d, t2, off);
                assert(d.composable() && (-86400 < off < 86400) && p.0 == spec_compose(d, t1, off)
                    && p.1 == spec_compose(d, t2, off));
            }
            Some(p)
        },
        None => None,
    }
}

} // verus!

