//! Reports the modification, creation and access times of files as text:
//! seconds since the Unix epoch, a calendar date in the local time zone, or
//! both.
//!
//! The crate does no input or output of its own, and does not ask the
//! machine for its time zone. A caller looks up each file's metadata, finds
//! the offset of the local time zone at the timestamps that
//! [`report::dated_times`] picks, hands both to [`report::report_file_at`]
//! and prints the text that comes back.

pub mod calendar;
pub mod decimal;
pub mod laws;
pub mod options;
pub mod report;
pub mod time;
