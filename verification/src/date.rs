//! Calendar dates without a time zone, counted in days since the first of
//! January 1970.

use vstd::prelude::*;

verus! {

/// Milliseconds in a day.
pub const DAY_MILLIS: i64 = 86_400_000;

/// A calendar date.
#[derive(Clone, Copy, Debug, PartialEq, Eq, Structural)]
pub struct Date {
    /// Days since the first of January 1970; negative before it.
    pub days: i32,
}

/// The day on which a point in time falls in UTC, counted from the epoch.
pub open spec fn day_of(millis: int) -> int {
    millis / (DAY_MILLIS as int)
}

/// The start of a day in UTC, in milliseconds since the epoch.
pub open spec fn start_of(days: int) -> int {
    days * (DAY_MILLIS as int)
}

/// The start of a date in UTC, in milliseconds since the epoch.
pub fn to_date_time(date: Date) -> (out: i64)
    ensures
        out == start_of(date.days as int),
{
    (date.days as i64) * DAY_MILLIS
}

/// The date on which a point in time falls in UTC, where the count of days
/// fits a date.
pub fn from_date_time(millis: i64) -> (out: Option<Date>)
    ensures
        out is Some <==> i32::MIN <= day_of(millis as int) <= i32::MAX,
        out is Some ==> out.unwrap().days == day_of(millis as int),
{
    let days: i64 = if millis >= 0 {
        millis / DAY_MILLIS
    } else {
        let n: i64 = -(millis + 1);
        -(n / DAY_MILLIS) - 1
    };
    if days < i32::MIN as i64 || days > i32::MAX as i64 {
        None
    } else {
        Some(Date { days: days as i32 })
    }
}

/// The text of a calendar date, year, month and day, for a count of days
/// since the epoch, if the calendar reaches that far.
pub uninterp spec fn date_text(days: i32) -> Option<Seq<char>>;

/// The count of days since the epoch that the text of a calendar date
/// denotes, if the text is a date.
pub uninterp spec fn date_of_text(text: Seq<char>) -> Option<i32>;

/// `chrono::NaiveDate::from_epoch_days`, then `to_string`: the date in
/// the form year-month-day, or nothing where chrono's calendar does not
/// reach the day. The outcome depends on the number alone.
#[verifier::external_body]
fn format_date(days: i32) -> (out: Option<String>)
    ensures
        out is Some <==> date_text(days) is Some,
        out is Some ==> out.unwrap()@ == date_text(days).unwrap(),
{
    chrono::NaiveDate::from_epoch_days(days).map(|d| d.to_string())
}

/// `FromStr` of `chrono::NaiveDate`, then `to_epoch_days`: reads a date
/// in the form year-month-day. The outcome depends on the text alone.
#[verifier::external_body]
fn parse_date(text: &str) -> (out: Option<i32>)
    ensures
        out == date_of_text(text@),
{
    text.parse::<chrono::NaiveDate>().ok().map(|d| d.to_epoch_days())
}

/// A calendar date as it is written for clients: ISO 8601, without a time
/// zone.
#[derive(Clone, Copy, Debug, PartialEq, Eq, Structural)]
pub struct DateScalar(pub Date);

impl DateScalar {
    /// The text of the date, where the calendar reaches it.
    pub fn serialize(&self) -> (out: Option<String>)
        ensures
            out is Some <==> date_text(self.0.days) is Some,
            out is Some ==> out.unwrap()@ == date_text(self.0.days).unwrap(),
    {
        format_date(self.0.days)
    }

    /// The date that a text denotes, if it denotes one.
    pub fn deserialize(text: &str) -> (out: Option<DateScalar>)
        ensures
            out == match date_of_text(text@) {
                Some(days) => Some(DateScalar(Date { days })),
                None => None,
            },
    {
        match parse_date(text) {
            Some(days) => Some(DateScalar(Date { days })),
            None => None,
        }
    }
}

/// The start of a day falls on that day.
pub proof fn lemma_day_of_start(days: int)
    ensures
        day_of(start_of(days)) == days,
{
    assert(days * 86_400_000 / 86_400_000 == days) by (nonlinear_arith);
}

} // verus!
