//! The audit of one file against the file it is made from, and the sum of
//! such audits over a track.

use vstd::prelude::*;

use crate::v2::category::{FileType, Group, Kind};
use crate::v2::inspect::result::{Status, StatusView};
use crate::v2::investigator::investigator::{File, Found, Investigator, Timestamp};
use crate::v2::sequence::adam::AdamSequenceAuditor;
use crate::v2::sequence::sdtm::SdtmSequenceAuditor;
use crate::v2::sequence::tfl::TflSequenceAuditor;

verus! {

/// The audit of one file of a track.
#[derive(Debug, Clone)]
pub struct SequenceResult {
    pub name: String,
    pub kind: FileType,
    pub status: Status,
    pub group: Group,
    pub modified_at: Option<Timestamp>,
}

/// The mathematical content of a [`SequenceResult`].
pub struct SequenceView {
    pub name: Seq<char>,
    pub kind: FileType,
    pub status: StatusView,
    pub group: Group,
    pub modified_at: Option<Timestamp>,
}

impl View for SequenceResult {
    type V = SequenceView;

    open spec fn view(&self) -> SequenceView {
        SequenceView {
            name: self.name@,
            kind: self.kind,
            status: self.status@,
            group: self.group,
            modified_at: self.modified_at,
        }
    }
}

/// The views of a list of audits.
pub open spec fn sequences_of(list: Seq<SequenceResult>) -> Seq<SequenceView> {
    list.map_values(|r: SequenceResult| r@)
}

/// The audit of a track.
#[derive(Debug, Clone)]
pub struct AuditResult {
    pub sequences: Vec<SequenceResult>,
    pub status: Status,
}

/// The mathematical content of an [`AuditResult`].
pub struct AuditView {
    pub sequences: Seq<SequenceView>,
    pub status: StatusView,
}

impl View for AuditResult {
    type V = AuditView;

    open spec fn view(&self) -> AuditView {
        AuditView { sequences: sequences_of(self.sequences@), status: self.status@ }
    }
}

/// The views of a list of audits of tracks.
pub open spec fn audits_of(list: Seq<AuditResult>) -> Seq<AuditView> {
    list.map_values(|r: AuditResult| r@)
}

/// The audit of a track from the audits of its files.
pub open spec fn track_audit(sequences: Seq<SequenceView>) -> AuditView {
    AuditView { sequences, status: summed(sequences) }
}

/// An auditor of the order in which the files of a deliverable were made.
pub trait SequenceAuditor {
    /// The audits of the production track and of the validation track.
    spec fn audited(&self) -> Seq<AuditView>;

    /// Audits the production track and the validation track.
    fn audit(&self) -> (r: Vec<AuditResult>)
        ensures
            audits_of(r@) == self.audited(),
            r.len() == 2,
    ;
}

/// The auditor of a deliverable of one of the three categories.
#[derive(Debug)]
pub enum Auditor {
    Sdtm(SdtmSequenceAuditor),
    Adam(AdamSequenceAuditor),
    Tfl(TflSequenceAuditor),
}

impl SequenceAuditor for Auditor {
    open spec fn audited(&self) -> Seq<AuditView> {
        match *self {
            Auditor::Sdtm(a) => a.audited(),
            Auditor::Adam(a) => a.audited(),
            Auditor::Tfl(a) => a.audited(),
        }
    }

    fn audit(&self) -> (r: Vec<AuditResult>) {
        match self {
            Auditor::Sdtm(a) => a.audit(),
            Auditor::Adam(a) => a.audit(),
            Auditor::Tfl(a) => a.audit(),
        }
    }
}

/// The auditor of the deliverable `name` of a category. `supp` says
/// whether a domain has a supplementary domain; the other categories have
/// none.
pub fn new(name: &str, kind: &Kind, supp: bool, investigator: &Investigator) -> (r: Auditor)
    ensures
        r.audited() == (match *kind {
            Kind::SDTM => crate::v2::sequence::sdtm::sdtm_audits(investigator@, name@, supp),
            Kind::ADaM => crate::v2::sequence::adam::adam_audits(investigator@, name@),
            Kind::TFLs => crate::v2::sequence::tfl::tfl_audits(investigator@, name@),
        }),
{
    match kind {
        Kind::SDTM => Auditor::Sdtm(SdtmSequenceAuditor::new(name, supp, investigator)),
        Kind::ADaM => Auditor::Adam(AdamSequenceAuditor::new(name, investigator)),
        Kind::TFLs => Auditor::Tfl(TflSequenceAuditor::new(name, investigator)),
    }
}

/// The status of a track: it passes when each of its files passes, and
/// fails, with no reason given, otherwise.
pub open spec fn summed(results: Seq<SequenceView>) -> StatusView {
    if forall|i: int| 0 <= i < results.len() ==> (#[trigger] results[i]).status == StatusView::Pass {
        StatusView::Pass
    } else {
        StatusView::Failed(Seq::empty())
    }
}

/// The status of a track from the audits of its files.
pub fn total_status(results: &Vec<SequenceResult>) -> (r: Status)
    ensures
        r@ == summed(sequences_of(results@)),
{
    let mut i: usize = 0;
    while i < results.len()
        invariant
            i <= results.len(),
            forall|j: int|
                0 <= j < i ==> (#[trigger] sequences_of(results@)[j]).status == StatusView::Pass,
        decreases results.len() - i,
    {
        if !results[i].status.is_pass() {
            assert(sequences_of(results@)[i as int].status != StatusView::Pass);
            proof {
                reveal_strlit("");
                assert(""@ =~= Seq::<char>::empty());
            }
            return Status::Failed("".to_owned());
        }
        i = i + 1;
    }
    Status::Pass
}

/// The status of a file held against the file it is made from: missing
/// when it was not found; failed, for the reason given, when the other
/// file was found and is not older; passed otherwise.
pub open spec fn held_against(base: Option<Found>, compare: Option<Found>, failed_message: Seq<char>)
    -> StatusView {
    match base {
        Some(base) => match compare {
            Some(compare) => if compare.modified_at.not_before(base.modified_at) {
                StatusView::Failed(failed_message)
            } else {
                StatusView::Pass
            },
            None => StatusView::Pass,
        },
        None => StatusView::Missing,
    }
}

/// The view of a file that may not have been found.
pub open spec fn seen_file(f: Option<&File>) -> Option<Found> {
    match f {
        Some(f) => Some(f@),
        None => None,
    }
}

/// When a file that may not have been found was last modified.
pub open spec fn time_of_file(f: Option<Found>) -> Option<Timestamp> {
    match f {
        Some(f) => Some(f.modified_at),
        None => None,
    }
}

/// Holds a file against the file it is made from.
pub fn auditing(base: Option<&File>, compare: Option<&File>, failed_message: &str) -> (r: Status)
    ensures
        r@ == held_against(seen_file(base), seen_file(compare), failed_message@),
{
    match base {
        Some(base) => {
            if let Some(compare) = compare {
                if compare.modified_at.ge(&base.modified_at) {
                    Status::Failed(failed_message.to_owned())
                } else {
                    Status::Pass
                }
            } else {
                Status::Pass
            }
        },
        None => Status::Missing,
    }
}

/// The audit of one file: under its name, with its kind and track, the
/// status given and the time at which `shown` was last modified.
pub open spec fn sequence_of(
    name: Seq<char>,
    kind: FileType,
    group: Group,
    status: StatusView,
    shown: Option<Found>,
) -> SequenceView {
    SequenceView { name, kind, status, group, modified_at: time_of_file(shown) }
}

/// When a file that may not have been found was last modified.
pub fn modified_at_of(f: Option<&File>) -> (r: Option<Timestamp>)
    ensures
        r == time_of_file(seen_file(f)),
{
    match f {
        Some(f) => Some(f.modified_at),
        None => None,
    }
}

} // verus!

verus! {

/// Audits one file: `base` is held against `compare`, and the audit shows
/// the time at which `shown` was last modified.
pub fn audit_file(
    name: String,
    kind: FileType,
    group: Group,
    base: Option<&File>,
    compare: Option<&File>,
    failed_message: &str,
    shown: Option<&File>,
) -> (r: SequenceResult)
    ensures
        r@ == sequence_of(
            name@,
            kind,
            group,
            held_against(seen_file(base), seen_file(compare), failed_message@),
            seen_file(shown),
        ),
{
    SequenceResult {
        name,
        kind,
        status: auditing(base, compare, failed_message),
        group,
        modified_at: modified_at_of(shown),
    }
}

/// The audit of a track from the audits of its files.
pub fn audit_track(sequences: Vec<SequenceResult>) -> (r: AuditResult)
    ensures
        r@ == track_audit(sequences_of(sequences@)),
{
    let status = total_status(&sequences);
    AuditResult { sequences, status }
}

} // verus!
