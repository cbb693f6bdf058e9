//! The text that a run prints for each file, and whether anything failed.
//!
//! A file's metadata lookup either fails as a whole, with the system's
//! description of the error, or yields up to three timestamps. The group of
//! lines for a failed lookup is one line: the path, a space and the
//! description. For any other file it is one line too: the path, then each
//! reported timestamp in the order modification, creation, access, with
//! `" ; "` before each timestamp. A reported timestamp that is missing, or
//! that cannot be written, leaves no trace in the line but counts as a
//! failure.

use vstd::prelude::*;
use crate::calendar::{strftime_text, text_view};
use crate::options::{Options, UnitMode};
use crate::time::{epoch_text, Timestamp};

verus! {

/// The timestamps that a successful lookup found; `None` for a kind that the
/// file system does not keep.
#[derive(Clone, Copy, Debug)]
pub struct FileTimes {
    pub modified: Option<Timestamp>,
    pub created: Option<Timestamp>,
    pub accessed: Option<Timestamp>,
}

/// For each of a file's timestamps, how many seconds the local time zone is
/// ahead of UTC at that instant; `None` where that is not known.
#[derive(Clone, Copy, Debug)]
pub struct ZoneOffsets {
    pub modified: Option<i32>,
    pub created: Option<i32>,
    pub accessed: Option<i32>,
}

/// What one file contributes to a run.
#[derive(Debug)]
pub struct FileReport {
    /// The lines to print, line breaks included.
    pub text: String,
    /// Whether the lookup, or a reported timestamp, failed.
    pub errored: bool,
}

/// Why a run as a whole failed.
#[derive(Clone, Copy, Debug, PartialEq, Eq, Structural)]
pub enum CliError {
    /// Something could not be reported for at least one file.
    ErrorRstat,
}

/// The error type of `std`'s input and output, of which nothing is read: it
/// is only taken in.
#[verifier::external_type_specification]
#[verifier::external_body]
pub struct ExIoError(std::io::Error);

impl From<std::io::Error> for CliError {
    /// Whatever went wrong in input or output, the run failed.
    fn from(err: std::io::Error) -> (error: CliError) {
        CliError::ErrorRstat
    }
}

impl vstd::std_specs::convert::FromSpecImpl<std::io::Error> for CliError {
    open spec fn obeys_from_spec() -> bool {
        true
    }

    open spec fn from_spec(err: std::io::Error) -> CliError {
        CliError::ErrorRstat
    }
}

/// What is known of a run once its files are done.
#[derive(Clone, Copy, Debug, PartialEq, Eq, Structural)]
pub struct RunResult {
    /// Whether anything failed for any file so far.
    pub any_errored: bool,
}

/// The text and result of a whole run.
#[derive(Debug)]
pub struct Report {
    /// One group of lines per file, in the order of the request.
    pub texts: Vec<String>,
    pub result: RunResult,
}

/// What separates the path and the timestamps on a file's line.
pub open spec fn delimiter() -> Seq<char> {
    seq![' ', ';', ' ']
}

/// The calendar date of `stamp` under `template` in a zone `east` seconds
/// ahead of UTC; `None` where the offset is unknown or the date cannot be
/// written.
pub open spec fn calendar_text(stamp: Timestamp, template: Seq<char>, east: Option<i32>) -> Option<
    Seq<char>,
> {
    match east {
        Some(e) => strftime_text(stamp.whole_secs(), stamp.subsec(), e as int, template),
        None => None,
    }
}

/// One timestamp as `mode` writes it, given its calendar date: the seconds
/// since the epoch, the date, or the seconds, a space and the date. `None`
/// where `mode` asks for a date and there is none.
pub open spec fn joined_text(stamp: Timestamp, mode: UnitMode, date: Option<Seq<char>>) -> Option<
    Seq<char>,
> {
    match mode {
        UnitMode::Epoch => Some(epoch_text(stamp@)),
        UnitMode::Human => date,
        UnitMode::Both => match date {
            Some(d) => Some(epoch_text(stamp@) + seq![' '] + d),
            None => None,
        },
    }
}

/// One timestamp as `mode` writes it; `None` where `mode` asks for a
/// calendar date and there is none.
pub open spec fn stamp_text(
    stamp: Timestamp,
    mode: UnitMode,
    template: Seq<char>,
    east: Option<i32>,
) -> Option<Seq<char>> {
    joined_text(stamp, mode, calendar_text(stamp, template, east))
}

/// Whether a timestamp of one kind fails: it is reported, and it is missing
/// or cannot be written.
pub open spec fn field_failed(
    shown: bool,
    stamp: Option<Timestamp>,
    mode: UnitMode,
    template: Seq<char>,
    east: Option<i32>,
) -> bool {
    shown && (stamp matches Some(t) ==> stamp_text(t, mode, template, east) is None)
}

/// What a timestamp of one kind adds to a file's line: `" ; "` and the
/// timestamp if it is reported and does not fail, else nothing.
pub open spec fn field_text(
    shown: bool,
    stamp: Option<Timestamp>,
    mode: UnitMode,
    template: Seq<char>,
    east: Option<i32>,
) -> Seq<char> {
    if shown && stamp is Some && stamp_text(stamp->0, mode, template, east) is Some {
        delimiter() + stamp_text(stamp->0, mode, template, east)->0
    } else {
        Seq::empty()
    }
}

/// The group of lines for the file at `path`.
pub open spec fn file_text(
    options: Options,
    path: Seq<char>,
    lookup: Result<FileTimes, String>,
    zone: ZoneOffsets,
) -> Seq<char> {
    match lookup {
        Err(reason) => path + seq![' '] + reason@ + seq!['\n'],
        Ok(times) => path + field_text(
            options.reports_modified(),
            times.modified,
            options.unit_mode,
            options.output_format@,
            zone.modified,
        ) + field_text(
            options.reports_creation(),
            times.created,
            options.unit_mode,
            options.output_format@,
            zone.created,
        ) + field_text(
            options.reports_accessed(),
            times.accessed,
            options.unit_mode,
            options.output_format@,
            zone.accessed,
        ) + seq!['\n'],
    }
}

/// Whether anything fails for a file: its lookup, or a reported timestamp.
pub open spec fn file_failed(
    options: Options,
    lookup: Result<FileTimes, String>,
    zone: ZoneOffsets,
) -> bool {
    match lookup {
        Err(_) => true,
        Ok(times) => {
            ||| field_failed(
                options.reports_modified(),
                times.modified,
                options.unit_mode,
                options.output_format@,
                zone.modified,
            )
            ||| field_failed(
                options.reports_creation(),
                times.created,
                options.unit_mode,
                options.output_format@,
                zone.created,
            )
            ||| field_failed(
                options.reports_accessed(),
                times.accessed,
                options.unit_mode,
                options.output_format@,
                zone.accessed,
            )
        },
    }
}

/// Whether the local time zone has no say in a file's report: the lookup
/// failed, or no calendar date is asked for.
pub open spec fn zone_free(options: Options, lookup: Result<FileTimes, String>) -> bool {
    lookup is Err || options.unit_mode == UnitMode::Epoch
}

/// Writes one timestamp as `mode` asks, given its calendar date if there
/// is one.
pub fn join_stamp(stamp: &Timestamp, mode: UnitMode, date: Option<String>) -> (text: Option<String>)
    ensures
        text_view(text) == joined_text(*stamp, mode, text_view(date)),
{
    match mode {
        UnitMode::Epoch => Some(stamp.epoch_string()),
        UnitMode::Human => date,
        UnitMode::Both => match date {
            Some(d) => {
                let mut text = stamp.epoch_string();
                proof {
                    reveal_strlit(" ");
                }
                text.append(" ");
                text.append(d.as_str());
                Some(text)
            },
            None => None,
        },
    }
}

/// Writes one timestamp as `mode` asks, with the calendar date, where there
/// is one, taken in a zone `east` seconds ahead of UTC.
pub fn render_stamp(stamp: &Timestamp, mode: UnitMode, template: &str, east: Option<i32>) -> (text:
    Option<String>)
    ensures
        text_view(text) == stamp_text(*stamp, mode, template@, east),
{
    match mode {
        UnitMode::Epoch => join_stamp(stamp, mode, None),
        _ => join_stamp(stamp, mode, render_calendar(stamp, template, east)),
    }
}

/// Writes the calendar date of `stamp` in a zone `east` seconds ahead of UTC.
fn render_calendar(stamp: &Timestamp, template: &str, east: Option<i32>) -> (text: Option<String>)
    ensures
        text_view(text) == calendar_text(*stamp, template@, east),
{
    match east {
        Some(e) => stamp.calendar_string(template, e),
        None => None,
    }
}

/// Appends what a timestamp of one kind adds to a file's line, and says
/// whether it failed.
fn push_field(
    line: &mut String,
    shown: bool,
    stamp: &Option<Timestamp>,
    mode: UnitMode,
    template: &str,
    east: Option<i32>,
) -> (failed: bool)
    ensures
        final(line)@ == old(line)@ + field_text(shown, *stamp, mode, template@, east),
        failed == field_failed(shown, *stamp, mode, template@, east),
{
    if !shown {
        return false;
    }
    let written = match stamp {
        Some(t) => render_stamp(t, mode, template, east),
        None => None,
    };
    match written {
        Some(text) => {
            proof {
                reveal_strlit(" ; ");
            }
            line.append(" ; ");
            line.append(text.as_str());
            false
        },
        None => {
            true
        },
    }
}

/// The report for one file, with each calendar date taken at the offset
/// that `zone` gives for it.
pub fn report_file_at(
    options: &Options,
    path: &str,
    lookup: &Result<FileTimes, String>,
    zone: &ZoneOffsets,
) -> (report: FileReport)
    ensures
        report.text@ == file_text(*options, path@, *lookup, *zone),
        report.errored == file_failed(*options, *lookup, *zone),
{
    let mut text = path.to_owned();
    match lookup {
        Err(reason) => {
            proof {
                reveal_strlit(" ");
                reveal_strlit("\n");
            }
            text.append(" ");
            text.append(reason.as_str());
            text.append("\n");
            FileReport { text, errored: true }
        },
        Ok(times) => {
            proof {
                reveal_strlit("\n");
            }
            let mode = options.unit_mode;
            let template = options.output_format.as_str();
            let lost_modified = push_field(
                &mut text,
                options.shows_modified(),
                &times.modified,
                mode,
                template,
                zone.modified,
            );
            let lost_created = push_field(
                &mut text,
                options.shows_creation(),
                &times.created,
                mode,
                template,
                zone.created,
            );
            let lost_accessed = push_field(
                &mut text,
                options.shows_accessed(),
                &times.accessed,
                mode,
                template,
                zone.accessed,
            );
            text.append("\n");
            FileReport { text, errored: lost_modified || lost_created || lost_accessed }
        },
    }
}

/// Whether a report writes the calendar date of a timestamp: the kind is
/// reported, the mode asks for dates and the timestamp is there.
pub open spec fn date_written(shown: bool, stamp: Option<Timestamp>, mode: UnitMode) -> bool {
    shown && mode.needs_calendar() && stamp is Some
}

/// The timestamp of one kind if the report writes its calendar date.
pub open spec fn dated(shown: bool, stamp: Option<Timestamp>, mode: UnitMode) -> Option<
    Timestamp,
> {
    if date_written(shown, stamp, mode) {
        stamp
    } else {
        None
    }
}

/// The timestamps of a file whose calendar dates its report writes: those at
/// which the offset of the local time zone is needed.
pub open spec fn dated_stamps(options: Options, lookup: Result<FileTimes, String>) -> FileTimes {
    match lookup {
        Err(_) => FileTimes { modified: None, created: None, accessed: None },
        Ok(times) => FileTimes {
            modified: dated(options.reports_modified(), times.modified, options.unit_mode),
            created: dated(options.reports_creation(), times.created, options.unit_mode),
            accessed: dated(options.reports_accessed(), times.accessed, options.unit_mode),
        },
    }
}

/// The timestamp of one kind if the report writes its calendar date.
fn dated_time(shown: bool, stamp: Option<Timestamp>, mode: UnitMode) -> (asked: Option<Timestamp>)
    ensures
        asked == dated(shown, stamp, mode),
{
    if !shown {
        return None;
    }
    match mode {
        UnitMode::Epoch => None,
        _ => stamp,
    }
}

/// Picks the timestamps of a file whose calendar dates its report writes.
///
/// A caller finds the offset of the local time zone at each of them and
/// hands the offsets to [`report_file_at`]; at the others no offset is
/// needed. There is none to find after a failed lookup or where only the
/// seconds are written.
pub fn dated_times(options: &Options, lookup: &Result<FileTimes, String>) -> (asked: FileTimes)
    ensures
        asked == dated_stamps(*options, *lookup),
{
    match lookup {
        Err(_) => FileTimes { modified: None, created: None, accessed: None },
        Ok(times) => {
            let mode = options.unit_mode;
            FileTimes {
                modified: dated_time(options.shows_modified(), times.modified, mode),
                created: dated_time(options.shows_creation(), times.created, mode),
                accessed: dated_time(options.shows_accessed(), times.accessed, mode),
            }
        },
    }
}

impl RunResult {
    /// The result of a run before its first file.
    pub fn new() -> (result: RunResult)
        ensures
            !result.any_errored,
    {
        RunResult { any_errored: false }
    }

    /// The result once one more file is done.
    pub fn record(self, report: &FileReport) -> (result: RunResult)
        ensures
            result.any_errored == (self.any_errored || report.errored),
    {
        RunResult { any_errored: self.any_errored || report.errored }
    }

    /// Success if nothing failed, else the error of the run.
    pub fn outcome(&self) -> (outcome: Result<(), CliError>)
        ensures
            outcome == if self.any_errored {
                Err::<(), CliError>(CliError::ErrorRstat)
            } else {
                Ok::<(), CliError>(())
            },
    {
        if self.any_errored {
            Err(CliError::ErrorRstat)
        } else {
            Ok(())
        }
    }
}

/// The characters of each string.
pub open spec fn texts_of(lines: Seq<String>) -> Seq<Seq<char>> {
    lines.map_values(|line: String| line@)
}

/// The groups of lines of a run, one per requested path and in their order,
/// where `lookups[i]` is what the lookup of the `i`-th path gave and
/// `zones[i]` holds the local offsets at its timestamps.
pub open spec fn run_texts(
    options: Options,
    lookups: Seq<Result<FileTimes, String>>,
    zones: Seq<ZoneOffsets>,
) -> Seq<Seq<char>> {
    Seq::new(
        options.files@.len(),
        |i: int| file_text(options, options.files@[i]@, lookups[i], zones[i]),
    )
}

/// Whether anything fails for any file of a run.
pub open spec fn run_failed(
    options: Options,
    lookups: Seq<Result<FileTimes, String>>,
    zones: Seq<ZoneOffsets>,
) -> bool {
    exists|i: int|
        0 <= i < options.files@.len() && #[trigger] file_failed(options, lookups[i], zones[i])
}

/// The report of a whole run: `lookups[i]` is what the lookup of the `i`-th
/// requested path gave, and `zones[i]` holds the offsets of the local time
/// zone at its timestamps. `None` unless there is one of each for every
/// path.
///
/// There is one group of lines for each path, in the order of the request,
/// and the run has failed exactly if something failed for one of them.
pub fn report(
    options: &Options,
    lookups: &Vec<Result<FileTimes, String>>,
    zones: &Vec<ZoneOffsets>,
) -> (run: Option<Report>)
    ensures
        run is Some <==> lookups@.len() == options.files@.len() && zones@.len()
            == options.files@.len(),
        run matches Some(r) ==> {
            &&& r.texts@.len() == options.files@.len()
            &&& texts_of(r.texts@) == run_texts(*options, lookups@, zones@)
            &&& forall|i: int|
                0 <= i < r.texts@.len() ==> (#[trigger] r.texts@[i])@ == file_text(
                    *options,
                    options.files@[i]@,
                    lookups@[i],
                    zones@[i],
                )
            &&& r.result.any_errored == run_failed(*options, lookups@, zones@)
        },
{
    let n = options.files.len();
    if lookups.len() != n || zones.len() != n {
        return None;
    }
    let mut texts: Vec<String> = Vec::new();
    let mut result = RunResult::new();
    let mut i: usize = 0;
    while i < n
        invariant
            n == options.files@.len(),
            n == lookups@.len(),
            n == zones@.len(),
            i <= n,
            texts@.len() == i,
            forall|k: int|
                0 <= k < i ==> (#[trigger] texts@[k])@ == file_text(
                    *options,
                    options.files@[k]@,
                    lookups@[k],
                    zones@[k],
                ),
            result.any_errored == (exists|k: int|
                0 <= k < i && #[trigger] file_failed(*options, lookups@[k], zones@[k])),
        decreases n - i,
    {
        let one = report_file_at(options, options.files[i].as_str(), &lookups[i], &zones[i]);
        proof {
            if one.errored {
                assert(file_failed(*options, lookups@[i as int], zones@[i as int]));
            }
        }
        result = result.record(&one);
        texts.push(one.text);
        i = i + 1;
    }
    let run = Report { texts, result };
    proof {
        assert(texts_of(run.texts@) =~= run_texts(*options, lookups@, zones@));
    }
    Some(run)
}

} // verus!
