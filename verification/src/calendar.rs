//! Calendar text of an instant, as chrono writes it.
//!
//! Nothing in this file is proved: these are the crate's assumptions about
//! chrono. Instants are counted as chrono counts them, in whole seconds since
//! 1970-01-01T00:00:00Z (negative before it) and nanoseconds past that second.

use vstd::prelude::*;

verus! {

/// What `chrono::DateTime::format` writes for the instant `secs` seconds and
/// `nanos` nanoseconds after the Unix epoch, seen from a zone `east` seconds
/// ahead of UTC, under the strftime template `template`; `None` where chrono
/// has no such zone or instant, or rejects the template.
pub uninterp spec fn strftime_text(secs: int, nanos: int, east: int, template: Seq<char>) -> Option<
    Seq<char>,
>;

/// The characters of a string that may be missing.
pub open spec fn text_view(text: Option<String>) -> Option<Seq<char>> {
    match text {
        Some(s) => Some(s@),
        None => None,
    }
}

/// Calls `chrono::DateTime::format` on the instant in the zone
/// `chrono::FixedOffset::east_opt(east)` and collects what
/// `chrono::format::DelayedFormat::write_to` writes.
///
/// Assumed: the outcome is a function of the four arguments alone, which
/// [`strftime_text`] names. It is `None` when `east_opt` or
/// `chrono::DateTime::from_timestamp` returns `None`, or `write_to` an error.
#[verifier::external_body]
pub(crate) fn strftime_at(secs: i64, nanos: u32, east: i32, template: &str) -> (text: Option<
    String,
>)
    ensures
        text_view(text) == strftime_text(secs as int, nanos as int, east as int, template@),
{
    let zone = chrono::FixedOffset::east_opt(east)?;
    let moment = chrono::DateTime::from_timestamp(secs, nanos)?.with_timezone(&zone);
    let mut out = String::new();
    match moment.format(template).write_to(&mut out) {
        Ok(()) => Some(out),
        Err(_) => None,
    }
}

} // verus!
