//! The data of the pages and page fragments that the service renders.
use vstd::prelude::*;

use vstd::view::View as _;

use crate::board::View;
use crate::models::Ticket;

verus! {

/// The number of microseconds in a day.
pub const MICROS_PER_DAY: i64 = 86_400_000_000;

/// The day of the Unix epoch, 1970-01-01, counted from 0001-01-01 as day 1.
pub const UNIX_EPOCH_CE_DAY: i64 = 719_163;

/// What `chrono::NaiveDate::from_num_days_from_ce_opt` gives for a day
/// counted from 0001-01-01 (day 1), written by the date's `Display`
/// (`%Y-%m-%d`); none for a day out of chrono's range.
pub uninterp spec fn ce_day_text(day: i32) -> Option<Seq<char>>;

/// Calls `chrono::NaiveDate::from_num_days_from_ce_opt` and writes the date
/// it gives. Trusted: the result is `ce_day_text` of the day. Which dates
/// are in range, and their text, are left to chrono.
#[verifier::external_body]
fn ce_day_date(day: i32) -> (r: Option<String>)
    ensures
        r is Some == ce_day_text(day) is Some,
        r matches Some(s) ==> ce_day_text(day) == Some(s@),
{
    match chrono::NaiveDate::from_num_days_from_ce_opt(day) {
        Some(date) => Some(format!("{date}")),
        None => None,
    }
}

/// The day, counted from 0001-01-01 as day 1, of a time given in
/// microseconds since the Unix epoch.
pub open spec fn ce_day_of(micros: int) -> int {
    micros / (MICROS_PER_DAY as int) + UNIX_EPOCH_CE_DAY
}

/// The day shown for a creation time `t` (microseconds since the epoch) is
/// the Euclidean day count: `t` falls in that day's 86 400 000 000
/// microseconds, counted from 1970-01-01 as day 719 163; one day later is the
/// next day, and the day always fits in an `i32`.
pub proof fn creation_day_is_the_calendar_day(t: i64)
    ensures
        (ce_day_of(t as int) - 719_163) * 86_400_000_000 <= t,
        t < (ce_day_of(t as int) - 719_163 + 1) * 86_400_000_000,
        t as int + 86_400_000_000 <= i64::MAX ==> ce_day_of(t + 86_400_000_000) == ce_day_of(t as int) + 1,
        i32::MIN <= ce_day_of(t as int) <= i32::MAX,
{
}

/// The date (`YYYY-MM-DD`, UTC) of a creation time given in microseconds
/// since the Unix epoch; none when the date is out of chrono's range.
pub fn fmtdate(created_at: i64) -> (date: Option<String>)
    ensures
        date is Some == ce_day_text(ce_day_of(created_at as int) as i32) is Some,
        date matches Some(d) ==> ce_day_text(ce_day_of(created_at as int) as i32) == Some(d@),
        i32::MIN <= ce_day_of(created_at as int) <= i32::MAX,
{
    let days = created_at.checked_div_euclid(MICROS_PER_DAY).unwrap();
    assert(-106_751_992 <= days <= 106_751_992);
    let day = (days + UNIX_EPOCH_CE_DAY) as i32;
    ce_day_date(day)
}

/// The start page of a signed-in user.
pub struct StartTemplate<'a> {
    pub username: &'a str,
}

/// The full tickets page.
pub struct TicketsTemplate {
    pub username: String,
    pub view_type: View,
    pub tickets_todo: Vec<Ticket>,
    pub tickets_doing: Vec<Ticket>,
    pub tickets_done: Vec<Ticket>,
}

/// The card of one ticket.
pub struct TicketTemplate {
    pub ticket: Ticket,
}

/// The tickets, as a table fragment.
pub struct TicketsTable {
    pub tickets_todo: Vec<Ticket>,
    pub tickets_doing: Vec<Ticket>,
    pub tickets_done: Vec<Ticket>,
}

/// The tickets, as a list fragment.
pub struct TicketsList {
    pub tickets_todo: Vec<Ticket>,
    pub tickets_doing: Vec<Ticket>,
    pub tickets_done: Vec<Ticket>,
}

/// The form that creates a ticket.
pub struct TicketCreate {}

/// The profile page of a signed-in user.
pub struct ProfileTemplate {
    pub username: String,
    pub user_id: i32,
}

} // verus!
