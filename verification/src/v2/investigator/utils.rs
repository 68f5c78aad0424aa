//! The names of the files of a deliverable, and the looking up of a file
//! in what was seen.

use vstd::prelude::*;

use crate::text::{
    concat, concat3, dashes_to_underscores, join_path, joined, lowercase, parts_of, same,
    split_path, strings_of, underscored,
};
use crate::v2::category::{group_dir_of, FileType, Group};
use crate::v2::investigator::investigator::{
    found_of, seen_of, File, Found, Investigator, InvestigatorView, Seen, SeenView, Timestamp,
};

verus! {

pub const CODE_FILE_EXTENTION: &'static str = "sas";

pub const OUTPUT_EXTENTION: &'static str = "rtf";

pub const DATA_FILE_EXTENTION: &'static str = "sas7bdat";

pub const XPT_FILE_EXTENTION: &'static str = "xpt";

pub const LOG_FILE_EXTENTION: &'static str = "log";

pub const QC_FILE_EXTENTION: &'static str = "rtf";

/// The first second of the calendar: the beginning of the year -262143.
pub const MIN_SECONDS: i64 = -8_334_601_228_800;

/// The last second of the calendar: the end of the year 262142.
pub const MAX_SECONDS: i64 = 8_210_266_876_799;

/// Whether a number of seconds since the beginning of 1970, with the
/// nanoseconds behind them, is a date and time that the calendar holds:
/// the second lies within the calendar's years, and the nanoseconds stay
/// below a second, or below two in the last second of a minute, where a
/// leap second may stand.
pub open spec fn timestamp_in_range(secs: i64, nsecs: u32) -> bool {
    MIN_SECONDS <= secs <= MAX_SECONDS && (nsecs < 1_000_000_000 || (nsecs < 2_000_000_000 && (
    secs as int) % 60 == 59))
}

/// `chrono::DateTime::from_timestamp`, read back by `timestamp` and
/// `timestamp_subsec_nanos`: for seconds and nanoseconds that the calendar
/// holds, the same seconds and nanoseconds; `None` for all others. The
/// calendar reaches from the year -262143 to the year 262142.
#[verifier::external_body]
fn from_timestamp(secs: i64, nsecs: u32) -> (r: Option<(i64, u32)>)
    ensures
        r == (if timestamp_in_range(secs, nsecs) {
            Some((secs, nsecs))
        } else {
            None::<(i64, u32)>
        }),
{
    match chrono::DateTime::from_timestamp(secs, nsecs) {
        Some(t) => Some((t.timestamp(), t.timestamp_subsec_nanos())),
        None => None,
    }
}

/// The point in time that lies `seconds` and `nanoseconds` behind the
/// beginning of 1970; the beginning of 1970 itself where the calendar does
/// not reach so far.
pub open spec fn time_of(seconds: u64, nanoseconds: u32) -> Timestamp {
    if timestamp_in_range(seconds as i64, nanoseconds) {
        Timestamp { secs: seconds as i64, nanos: nanoseconds }
    } else {
        Timestamp { secs: 0, nanos: 0 }
    }
}

/// The point in time that the calendar gives, or the beginning of 1970
/// where it gives none.
pub fn or_epoch(time: Option<(i64, u32)>) -> (t: Timestamp)
    ensures
        t == (match time {
            Some((secs, nanos)) => Timestamp { secs, nanos },
            None => Timestamp { secs: 0, nanos: 0 },
        }),
{
    match time {
        Some((secs, nanos)) => Timestamp { secs, nanos },
        None => Timestamp { secs: 0, nanos: 0 },
    }
}

/// The point in time that lies `seconds` and `nanoseconds` behind the
/// beginning of 1970; the beginning of 1970 itself where the calendar does
/// not reach so far.
pub fn system_time_to_chrono(seconds: u64, nanoseconds: u32) -> (t: Timestamp)
    ensures
        t == time_of(seconds, nanoseconds),
{
    or_epoch(from_timestamp(seconds as i64, nanoseconds))
}

/// A file as it was seen: under the last part of its path as its name.
pub open spec fn as_found(s: SeenView) -> Found {
    Found {
        name: parts_of(s.filepath).last(),
        filepath: s.filepath,
        created_at: time_of(s.created_secs, s.created_nanos),
        modified_at: time_of(s.modified_secs, s.modified_nanos),
    }
}

/// The first of the files seen at or after index `from` that lies at
/// `filepath`.
pub open spec fn first_seen(seen: Seq<SeenView>, filepath: Seq<char>, from: int) -> Option<SeenView>
    decreases seen.len() - from,
{
    if from < 0 || from >= seen.len() {
        None
    } else if seen[from].filepath == filepath {
        Some(seen[from])
    } else {
        first_seen(seen, filepath, from + 1)
    }
}

/// The file at `filepath`, if the path names a file and a file was seen
/// there.
pub open spec fn looked_up(seen: Seq<SeenView>, filepath: Seq<char>) -> Option<Found> {
    if parts_of(filepath).len() == 0 {
        None
    } else {
        match first_seen(seen, filepath, 0) {
            Some(s) => Some(as_found(s)),
            None => None,
        }
    }
}

/// The file at `filepath`, if the path names a file and a file was seen
/// there.
pub fn file(filepath: &str, seen: &Vec<Seen>) -> (r: Option<File>)
    ensures
        found_of(r) == looked_up(seen_of(seen@), filepath@),
{
    let parts = split_path(filepath);
    if parts.len() == 0 {
        return None;
    }
    let mut i: usize = 0;
    while i < seen.len()
        invariant
            i <= seen.len(),
            strings_of(parts@) == parts_of(filepath@),
            parts.len() > 0,
            first_seen(seen_of(seen@), filepath@, 0) == first_seen(
                seen_of(seen@),
                filepath@,
                i as int,
            ),
        decreases seen.len() - i,
    {
        let s = &seen[i];
        assert(seen_of(seen@)[i as int] == s@);
        if same(s.filepath.as_str(), filepath) {
            assert(strings_of(parts@).last() == parts@[parts.len() - 1]@);
            return Some(
                File {
                    name: parts[parts.len() - 1].clone(),
                    filepath: filepath.to_owned(),
                    created_at: system_time_to_chrono(s.created_secs, s.created_nanos),
                    modified_at: system_time_to_chrono(s.modified_secs, s.modified_nanos),
                },
            );
        }
        i = i + 1;
    }
    None
}

/// The extension of the files of a kind.
pub open spec fn extension_of(kind: FileType) -> Seq<char> {
    match kind {
        FileType::Code => CODE_FILE_EXTENTION@,
        FileType::Data => DATA_FILE_EXTENTION@,
        FileType::Xpt => XPT_FILE_EXTENTION@,
        FileType::Output => OUTPUT_EXTENTION@,
        FileType::Log => LOG_FILE_EXTENTION@,
        FileType::Qc => QC_FILE_EXTENTION@,
    }
}

/// The name of the file of a deliverable that is written `lower` in lower
/// case, before any `-` is replaced: `lower`, a dot and the extension,
/// behind `v-` on the validation track.
pub open spec fn plain_filename(lower: Seq<char>, group: Group, kind: FileType) -> Seq<char> {
    match group {
        Group::Production => lower + "."@ + extension_of(kind),
        Group::Validation => "v-"@ + (lower + "."@ + extension_of(kind)),
    }
}

/// Whether files of a kind are named with `_` where the deliverable, or
/// the prefix of the track, has `-`: datasets, transport files and QC
/// reports.
pub open spec fn uses_underscores(kind: FileType) -> bool {
    kind == FileType::Data || kind == FileType::Xpt || kind == FileType::Qc
}

/// The name of the file of a kind that a deliverable written `lower` in
/// lower case has on a track. Datasets, transport files and QC reports are
/// named with `_` for every `-`, that of the track's prefix too.
pub open spec fn named(lower: Seq<char>, group: Group, kind: FileType) -> Seq<char> {
    if uses_underscores(kind) {
        underscored(plain_filename(lower, group, kind))
    } else {
        plain_filename(lower, group, kind)
    }
}

/// The name of the file of a kind that a deliverable has on a track: that
/// of the deliverable's name in lower case.
pub open spec fn filename_of(item: Seq<char>, group: Group, kind: FileType) -> Seq<char> {
    named(lowercase(item), group, kind)
}

/// The name of the file of a kind that a deliverable written `lower` in
/// lower case has on a track.
pub fn filename_from(lower: &str, group: &Group, kind: &FileType) -> (r: String)
    ensures
        r@ == named(lower@, *group, *kind),
{
    let extention = match kind {
        FileType::Code => CODE_FILE_EXTENTION,
        FileType::Data => DATA_FILE_EXTENTION,
        FileType::Xpt => XPT_FILE_EXTENTION,
        FileType::Output => OUTPUT_EXTENTION,
        FileType::Log => LOG_FILE_EXTENTION,
        FileType::Qc => QC_FILE_EXTENTION,
    };
    let plain = concat3(lower, ".", extention);
    let filename = match group {
        Group::Production => plain,
        Group::Validation => concat("v-", plain.as_str()),
    };
    match kind {
        FileType::Data | FileType::Xpt | FileType::Qc => dashes_to_underscores(filename.as_str()),
        _ => filename,
    }
}

/// The name of the file of a kind that a deliverable has on a track.
pub fn filename(item: &str, group: &Group, kind: &FileType) -> (r: String)
    ensures
        r@ == filename_of(item@, *group, *kind),
{
    filename_from(item.to_lowercase().as_str(), group, kind)
}

/// The name of the supplementary domain of a domain.
pub open spec fn supp_of(item: Seq<char>) -> Seq<char> {
    "supp"@ + item
}

/// The path of the file of a kind that a deliverable has on a track, in
/// the folder `dir` of the track.
pub open spec fn slot_path(
    inv: InvestigatorView,
    group: Group,
    dir: Seq<char>,
    item: Seq<char>,
    kind: FileType,
) -> Seq<char> {
    joined(joined(joined(inv.project_root(), group_dir_of(group)), dir), filename_of(item, group, kind))
}

/// The file of a kind that a deliverable has on a track, if it was seen.
pub open spec fn slot_file(
    inv: InvestigatorView,
    group: Group,
    dir: Seq<char>,
    item: Seq<char>,
    kind: FileType,
) -> Option<Found> {
    looked_up(inv.seen, slot_path(inv, group, dir, item, kind))
}

impl Investigator {
    /// The path of the file of a kind that a deliverable has on a track.
    pub fn path_of(&self, group: Group, dir: &str, item: &str, kind: FileType) -> (r: String)
        ensures
            r@ == slot_path(self@, group, dir@, item@, kind),
    {
        let track = join_path(self.root().as_str(), group.group_dir());
        let folder = join_path(track.as_str(), dir);
        join_path(folder.as_str(), filename(item, &group, &kind).as_str())
    }

    /// The file of a kind that a deliverable has on a track, if it was
    /// seen.
    pub fn probe(&self, group: Group, dir: &str, item: &str, kind: FileType) -> (r: Option<File>)
        ensures
            found_of(r) == slot_file(self@, group, dir@, item@, kind),
    {
        let filepath = self.path_of(group, dir, item, kind);
        file(filepath.as_str(), self.seen())
    }
}

} // verus!
