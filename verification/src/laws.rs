//! What holds of every report.

use vstd::prelude::*;
use crate::options::{Options, UnitMode};
use crate::report::{
    dated_stamps, field_text, file_failed, file_text, run_failed, run_texts,
    stamp_text, zone_free, FileTimes, ZoneOffsets,
};
use crate::time::Timestamp;

verus! {

/// A run has one group of lines for each requested path, in the order of the
/// request, and each group is that of its own path and lookup.
pub proof fn lemma_one_group_per_path(
    options: Options,
    lookups: Seq<Result<FileTimes, String>>,
    zones: Seq<ZoneOffsets>,
)
    ensures
        run_texts(options, lookups, zones).len() == options.files@.len(),
        forall|i: int|
            0 <= i < options.files@.len() ==> #[trigger] run_texts(options, lookups, zones)[i]
                == file_text(options, options.files@[i]@, lookups[i], zones[i]),
{
}

/// Every group of lines ends with a line break.
pub proof fn lemma_group_ends_line(
    options: Options,
    path: Seq<char>,
    lookup: Result<FileTimes, String>,
    zone: ZoneOffsets,
)
    ensures
        file_text(options, path, lookup, zone).len() > 0,
        file_text(options, path, lookup, zone).last() == '\n',
{
}

/// A request that selects no kind of timestamp is reported as the request
/// that selects all three.
pub proof fn lemma_none_selected_is_all(
    bare: Options,
    full: Options,
    lookups: Seq<Result<FileTimes, String>>,
    zones: Seq<ZoneOffsets>,
)
    requires
        bare.none_selected(),
        full.want_modified && full.want_creation && full.want_accessed,
        bare.files == full.files,
        bare.unit_mode == full.unit_mode,
        bare.output_format@ == full.output_format@,
    ensures
        forall|path: Seq<char>, lookup: Result<FileTimes, String>, zone: ZoneOffsets|
            #![trigger file_text(bare, path, lookup, zone)]
            #![trigger file_text(full, path, lookup, zone)]
            file_text(bare, path, lookup, zone) == file_text(full, path, lookup, zone),
        forall|lookup: Result<FileTimes, String>, zone: ZoneOffsets|
            #![trigger file_failed(bare, lookup, zone)]
            #![trigger file_failed(full, lookup, zone)]
            file_failed(bare, lookup, zone) == file_failed(full, lookup, zone),
        run_texts(bare, lookups, zones) == run_texts(full, lookups, zones),
        run_failed(bare, lookups, zones) == run_failed(full, lookups, zones),
{
    if run_failed(bare, lookups, zones) {
        let i = choose|i: int|
            0 <= i < bare.files@.len() && #[trigger] file_failed(bare, lookups[i], zones[i]);
        assert(file_failed(full, lookups[i], zones[i]));
    }
    if run_failed(full, lookups, zones) {
        let i = choose|i: int|
            0 <= i < full.files@.len() && #[trigger] file_failed(full, lookups[i], zones[i]);
        assert(file_failed(bare, lookups[i], zones[i]));
    }
}

/// Where the lookup failed or only the seconds are written, the offsets of
/// the local time zone have no say in a file's report.
pub proof fn lemma_zone_free(
    options: Options,
    path: Seq<char>,
    lookup: Result<FileTimes, String>,
    zone: ZoneOffsets,
    other: ZoneOffsets,
)
    requires
        zone_free(options, lookup),
    ensures
        file_text(options, path, lookup, zone) == file_text(options, path, lookup, other),
        file_failed(options, lookup, zone) == file_failed(options, lookup, other),
{
}

/// Only the offsets at the timestamps whose dates are written have a say in
/// a file's report: two sets of offsets that agree there give the same
/// report.
pub proof fn lemma_only_dated_offsets_count(
    options: Options,
    path: Seq<char>,
    lookup: Result<FileTimes, String>,
    zone: ZoneOffsets,
    other: ZoneOffsets,
)
    requires
        dated_stamps(options, lookup).modified is Some ==> zone.modified == other.modified,
        dated_stamps(options, lookup).created is Some ==> zone.created == other.created,
        dated_stamps(options, lookup).accessed is Some ==> zone.accessed == other.accessed,
    ensures
        file_text(options, path, lookup, zone) == file_text(options, path, lookup, other),
        file_failed(options, lookup, zone) == file_failed(options, lookup, other),
{
}

/// A path whose lookup fails gets one line, the path, a space and the
/// description of the error, with no timestamp; and the run has failed.
pub proof fn lemma_failed_lookup(
    options: Options,
    lookups: Seq<Result<FileTimes, String>>,
    zones: Seq<ZoneOffsets>,
    i: int,
)
    requires
        0 <= i < options.files@.len(),
        lookups[i] is Err,
    ensures
        run_texts(options, lookups, zones)[i] == options.files@[i]@ + seq![' ']
            + lookups[i]->Err_0@ + seq!['\n'],
        run_failed(options, lookups, zones),
{
    assert(file_failed(options, lookups[i], zones[i]));
}

/// A file without a creation time, where one is reported, gets its line
/// with the other reported timestamps and nothing for the creation time; and
/// the file has failed.
pub proof fn lemma_missing_creation_time(
    options: Options,
    path: Seq<char>,
    times: FileTimes,
    zone: ZoneOffsets,
)
    requires
        options.reports_creation(),
        times.created is None,
    ensures
        file_failed(options, Ok(times), zone),
        file_text(options, path, Ok(times), zone) == path + field_text(
            options.reports_modified(),
            times.modified,
            options.unit_mode,
            options.output_format@,
            zone.modified,
        ) + field_text(
            options.reports_accessed(),
            times.accessed,
            options.unit_mode,
            options.output_format@,
            zone.accessed,
        ) + seq!['\n'],
{
}

/// Written both ways, a timestamp is its seconds since the epoch, a space
/// and its calendar date: the two writings of one and the same instant.
pub proof fn lemma_both_joins_the_two(stamp: Timestamp, template: Seq<char>, east: Option<i32>)
    ensures
        stamp_text(stamp, UnitMode::Epoch, template, east) is Some,
        stamp_text(stamp, UnitMode::Both, template, east) is Some <==> stamp_text(
            stamp,
            UnitMode::Human,
            template,
            east,
        ) is Some,
        stamp_text(stamp, UnitMode::Both, template, east) is Some ==> stamp_text(
            stamp,
            UnitMode::Both,
            template,
            east,
        )->0 == stamp_text(stamp, UnitMode::Epoch, template, east)->0 + seq![' '] + stamp_text(
            stamp,
            UnitMode::Human,
            template,
            east,
        )->0,
{
}

} // verus!
