//! The QC stage of the validation track.
//!
//! Once the validation track's own chain (program, dataset, log) is ready,
//! the QC report decides: a report older than the data it compares cannot
//! certify them, and otherwise the report judge's verdict stands.

use vstd::prelude::*;

use crate::module::file::{File, FileStatus, FileView};
use crate::module::group::GroupStatus;

verus! {

/// What the report judge says of a QC report.
#[derive(Debug, Clone)]
pub enum Verdict {
    /// The report shows that both tracks produced the same data.
    Match,
    /// The report shows a difference; the text says which.
    Mismatch(String),
    /// The judge could make nothing of the report.
    Unknown,
}

/// The outcome that a verdict gives a QC report that was found. `None`
/// stands for a report that the judge could not read.
pub open spec fn judged(verdict: Option<Verdict>) -> FileStatus {
    if verdict == Some(Verdict::Match) {
        FileStatus::Fine
    } else {
        FileStatus::NotMatch
    }
}

/// The outcome that a verdict gives a QC report that was found.
pub fn judge_status(verdict: &Option<Verdict>) -> (s: FileStatus)
    ensures
        s == judged(*verdict),
{
    match verdict {
        Some(Verdict::Match) => FileStatus::Fine,
        _ => FileStatus::NotMatch,
    }
}

/// When a file was seen to be modified: never, for one that was not found.
pub open spec fn seen_at(f: FileView) -> u64 {
    if f.is_missing() {
        0
    } else {
        f.modified_at
    }
}

/// The greatest of the times at which the given files were seen to be
/// modified, 0 when there is none.
pub open spec fn latest_seen(files: Seq<FileView>) -> u64
    decreases files.len(),
{
    if files.len() == 0 {
        0
    } else {
        let before = latest_seen(files.drop_last());
        if seen_at(files.last()) > before {
            seen_at(files.last())
        } else {
            before
        }
    }
}

/// The status of the validation track after the QC stage: `base` is the
/// status of its own chain, `previous` the time of the newest dataset that
/// the report compares, `report` the QC report as found and judged.
pub open spec fn qc_status(base: GroupStatus, previous: u64, report: FileView) -> GroupStatus {
    if base != GroupStatus::Ready {
        base
    } else if previous > seen_at(report) {
        GroupStatus::Unexpected
    } else if report.status == FileStatus::Fine {
        GroupStatus::Pass
    } else {
        GroupStatus::NotMatch
    }
}

/// The outcome of the QC report after the QC stage.
pub open spec fn qc_mark(base: GroupStatus, previous: u64, report: FileView) -> FileStatus {
    if report.is_missing() {
        FileStatus::Missing
    } else if base != GroupStatus::Ready || previous > report.modified_at {
        FileStatus::Unexpected
    } else if report.status == FileStatus::Fine {
        FileStatus::Fine
    } else {
        FileStatus::NotMatch
    }
}

/// The latest time is no earlier than any of the times it is taken from,
/// and it is one of them, or 0.
pub proof fn lemma_latest_seen(files: Seq<FileView>)
    ensures
        forall|i: int| 0 <= i < files.len() ==> seen_at(#[trigger] files[i]) <= latest_seen(files),
        latest_seen(files) == 0 || exists|i: int|
            0 <= i < files.len() && seen_at(#[trigger] files[i]) == latest_seen(files),
    decreases files.len(),
{
    if files.len() > 0 {
        let before = files.drop_last();
        lemma_latest_seen(before);
        assert forall|i: int| 0 <= i < files.len() implies seen_at(#[trigger] files[i])
            <= latest_seen(files) by {
            if i < before.len() {
                assert(before[i] == files[i]);
            }
        }
        if latest_seen(files) != 0 {
            if seen_at(files.last()) > latest_seen(before) {
                assert(seen_at(files[files.len() - 1]) == latest_seen(files));
            } else {
                let i = choose|i: int|
                    0 <= i < before.len() && seen_at(#[trigger] before[i]) == latest_seen(before);
                assert(before[i] == files[i]);
            }
        }
    }
}

/// A QC report older than one of the datasets it compares makes a ready
/// validation track unexpected, whatever the judge says of the report.
pub proof fn lemma_old_report_is_unexpected(
    datasets: Seq<FileView>,
    which: int,
    report: FileView,
    verdict: Option<Verdict>,
)
    requires
        0 <= which < datasets.len(),
        seen_at(datasets[which]) > report.modified_at,
    ensures
        qc_status(GroupStatus::Ready, latest_seen(datasets), report.with_status(judged(verdict)))
            == GroupStatus::Unexpected,
        qc_mark(GroupStatus::Ready, latest_seen(datasets), report.with_status(judged(verdict)))
            == FileStatus::Unexpected,
{
    lemma_latest_seen(datasets);
}

/// On a ready validation track, a QC report that was found and is no older
/// than any dataset it compares passes when the judge finds a match, and
/// does not match on any other verdict or when the judge cannot read it.
pub proof fn lemma_verdict_decides(
    datasets: Seq<FileView>,
    report: FileView,
    verdict: Option<Verdict>,
)
    requires
        !report.is_missing(),
        forall|i: int| 0 <= i < datasets.len() ==> seen_at(#[trigger] datasets[i]) <= seen_at(report),
    ensures
        qc_status(GroupStatus::Ready, latest_seen(datasets), report.with_status(judged(verdict)))
            == (if verdict == Some(Verdict::Match) {
            GroupStatus::Pass
        } else {
            GroupStatus::NotMatch
        }),
        qc_mark(GroupStatus::Ready, latest_seen(datasets), report.with_status(judged(verdict)))
            == judged(verdict),
{
    lemma_latest_seen(datasets);
}

/// A validation track whose own chain is not ready keeps its status, and
/// its QC report, if one was found, is unexpected.
pub proof fn lemma_unready_track_keeps_status(base: GroupStatus, previous: u64, report: FileView)
    requires
        base != GroupStatus::Ready,
    ensures
        qc_status(base, previous, report) == base,
        qc_mark(base, previous, report) == (if report.is_missing() {
            FileStatus::Missing
        } else {
            FileStatus::Unexpected
        }),
{
}

/// When a file was seen to be modified.
pub fn file_seen_at(f: &File) -> (t: u64)
    ensures
        t == seen_at(f@),
{
    if f.is_missing() {
        0
    } else {
        f.modified_at()
    }
}

/// The later of a time and the time at which a file was seen to be
/// modified.
pub fn later_of(t: u64, f: &File) -> (r: u64)
    ensures
        r == (if seen_at(f@) > t {
            seen_at(f@)
        } else {
            t
        }),
{
    let seen = file_seen_at(f);
    if seen > t {
        seen
    } else {
        t
    }
}

/// Runs the QC stage for one report. Returns the validation track's status
/// after the stage and the report with its outcome.
pub fn resolve_qc(base: GroupStatus, previous: u64, report: &File) -> (r: (GroupStatus, File))
    ensures
        r.0 == qc_status(base, previous, report@),
        r.1@ == report@.with_status(qc_mark(base, previous, report@)),
{
    if report.is_missing() {
        let status = if base != GroupStatus::Ready {
            base
        } else if previous > 0 {
            GroupStatus::Unexpected
        } else {
            GroupStatus::NotMatch
        };
        return (status, report.marked(FileStatus::Missing));
    }
    if base != GroupStatus::Ready {
        return (base, report.marked(FileStatus::Unexpected));
    }
    if previous > report.modified_at() {
        return (GroupStatus::Unexpected, report.marked(FileStatus::Unexpected));
    }
    if report.status() == FileStatus::Fine {
        (GroupStatus::Pass, report.marked(FileStatus::Fine))
    } else {
        (GroupStatus::NotMatch, report.marked(FileStatus::NotMatch))
    }
}

} // verus!
