//! UTC calendar dates, as the key scheme and the engine see them.

use chrono::Datelike;
use vstd::prelude::*;

verus! {

/// A calendar date (proleptic Gregorian), held as year, month and day.
#[derive(Clone, Copy, Debug, PartialEq, Eq, Structural)]
pub struct CivilDate {
    pub year: i32,
    pub month: u32,
    pub day: u32,
}

impl CivilDate {
    /// The dates that the key scheme can spell: a four-digit year, a month and a day of month.
    pub open spec fn wf(self) -> bool {
        0 <= self.year <= 9999 && 1 <= self.month <= 12 && 1 <= self.day <= 31
    }

    /// Builds a date from its parts when they lie in the ranges that `wf` names.
    pub fn new(year: i32, month: u32, day: u32) -> (r: Option<CivilDate>)
        ensures
            r is Some <==> (CivilDate { year, month, day }).wf(),
            r matches Some(d) ==> d == (CivilDate { year, month, day }),
    {
        let d = CivilDate { year, month, day };
        if 0 <= year && year <= 9999 && 1 <= month && month <= 12 && 1 <= day && day <= 31 {
            Some(d)
        } else {
            None
        }
    }
}

/// Strict calendar order: by year, then month, then day.
pub open spec fn date_lt(a: (int, int, int), b: (int, int, int)) -> bool {
    a.0 < b.0 || (a.0 == b.0 && (a.1 < b.1 || (a.1 == b.1 && a.2 < b.2)))
}

pub open spec fn parts(d: CivilDate) -> (int, int, int) {
    (d.year as int, d.month as int, d.day as int)
}

/// The calendar day before the date with these parts, if the parts name a date that has one.
pub uninterp spec fn day_before(date: (int, int, int)) -> Option<(int, int, int)>;

/// The date before `d` that the key scheme can spell, if there is one.
pub open spec fn previous_date(d: CivilDate) -> Option<CivilDate> {
    match day_before(parts(d)) {
        Some(p) => if 0 <= p.0 <= 9999 && 1 <= p.1 <= 12 && 1 <= p.2 <= 31 {
            Some(CivilDate { year: p.0 as i32, month: p.1 as u32, day: p.2 as u32 })
        } else {
            None
        },
        None => None,
    }
}

/// `d` and `e` are consecutive UTC days: `d` is the day before `e`.
pub open spec fn consecutive(d: CivilDate, e: CivilDate) -> bool {
    previous_date(e) == Some(d) && date_lt(parts(d), parts(e))
}

/// Relies on chrono's `NaiveDate::from_ymd_opt` (the date with these parts, if it exists) and
/// `NaiveDate::pred_opt` (the previous calendar date): together, the day before a date.
#[verifier::external_body]
fn chrono_day_before(year: i32, month: u32, day: u32) -> (r: Option<(i32, u32, u32)>)
    ensures
        match r {
            Some(p) => day_before((year as int, month as int, day as int)) == Some(
                (p.0 as int, p.1 as int, p.2 as int),
            ) && 1 <= p.1 <= 12 && 1 <= p.2 <= 31 && date_lt(
                (p.0 as int, p.1 as int, p.2 as int),
                (year as int, month as int, day as int),
            ),
            None => day_before((year as int, month as int, day as int)) is None,
        },
{
    chrono::NaiveDate::from_ymd_opt(year, month, day)
        .and_then(|d| d.pred_opt())
        .map(|p| (p.year(), p.month(), p.day()))
}

/// The day before `d`, when it exists and the key scheme can spell it.
pub fn yesterday_of(d: &CivilDate) -> (r: Option<CivilDate>)
    ensures
        r == previous_date(*d),
        r matches Some(p) ==> consecutive(p, *d),
{
    match chrono_day_before(d.year, d.month, d.day) {
        Some(p) => CivilDate::new(p.0, p.1, p.2),
        None => None,
    }
}

} // verus!
