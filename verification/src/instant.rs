//! The start date of a slot search, written from an instant.

use vstd::prelude::*;
use crate::params::{availability_form, availability_params, form_text};

verus! {

/// The text that chrono writes for the instant `secs` seconds and `nanos`
/// nanoseconds after the Unix epoch, in UTC and in the format `%+` (a date
/// and time with offset, as ISO 8601 and RFC 3339 have it); `None` for an
/// instant that chrono cannot hold.
pub uninterp spec fn rfc3339_utc(secs: i64, nanos: u32) -> Option<Seq<char>>;

/// Calls `chrono::DateTime::<Utc>::from_timestamp` and writes what it gives
/// with `DateTime::format("%+")`.
///
/// Trusted: the text depends on the two numbers alone, so it is the named
/// text of that instant, and no text comes back exactly where chrono makes
/// no instant of the two numbers. Nothing is claimed of the characters.
#[verifier::external_body]
fn format_instant(secs: i64, nanos: u32) -> (text: Option<String>)
    ensures
        match text {
            Some(t) => rfc3339_utc(secs, nanos) == Some(t@),
            None => rfc3339_utc(secs, nanos) is None,
        },
{
    let instant = chrono::DateTime::<chrono::Utc>::from_timestamp(secs, nanos)?;
    Some(format!("{}", instant.format("%+")))
}

/// Builds the form of a slot search that starts at the instant `secs`
/// seconds and `nanos` nanoseconds after the Unix epoch. There is a form
/// exactly for the instants that can be written as a date.
pub fn availability_params_at(
    secs: i64,
    nanos: u32,
    visit_motive_ids: &Vec<u32>,
    agenda_ids: &Vec<u32>,
    practice_ids: &Vec<u32>,
) -> (fields: Option<Vec<(String, String)>>)
    ensures
        match fields {
            Some(f) => rfc3339_utc(secs, nanos) is Some && form_text(f@) == availability_form(
                rfc3339_utc(secs, nanos)->0,
                visit_motive_ids@,
                agenda_ids@,
                practice_ids@,
            ),
            None => rfc3339_utc(secs, nanos) is None,
        },
{
    match format_instant(secs, nanos) {
        Some(start_date) => Some(
            availability_params(start_date, visit_motive_ids, agenda_ids, practice_ids),
        ),
        None => None,
    }
}

} // verus!
