//! The audit of the two tracks of one deliverable.
//!
//! A category says which files a track needs and in which order they are
//! meant to come into being. From that list and the snapshots of the
//! category's folders the functions here build the group of each track:
//! they look each file up, run the chain status algorithm, and on the
//! validation track the QC stage.

use vstd::prelude::*;

use crate::chain::{audit_chain, chain_marks, chain_status, Rules};
use crate::error::InspectError;
use crate::module::file::{
    slot_filename, slot_filename_of, views_of, File, FileKind, FileStatus, FileView,
};
use crate::module::group::{Group, GroupKind, GroupStatus, GroupView};
use crate::qc::{later_of, latest_seen, qc_mark, qc_status, resolve_qc};
use crate::snapshot::{
    entries_of, texts_of, is_matched, latest_in, matched, recorded, Entry, Judgement, Snapshot,
};

verus! {

/// A place in a chain: the kind of the file and whether it belongs to the
/// supplementary domain.
#[derive(Debug, Clone, Copy, PartialEq, Eq, Structural)]
pub struct Role {
    pub kind: FileKind,
    pub supp: bool,
}

/// What was seen of a category: a snapshot of each of its folders, and the
/// report judge's verdicts on the QC reports.
#[derive(Debug)]
pub struct Sources {
    pub dev_program: Snapshot,
    pub qc_program: Snapshot,
    pub dev_data: Snapshot,
    pub qc_data: Snapshot,
    pub dev_output: Snapshot,
    pub qc_files: Snapshot,
    pub judgements: Vec<Judgement>,
}

/// The mathematical content of [`Sources`].
pub struct SourcesView {
    pub dev_program: Map<Seq<char>, (u64, u64)>,
    pub qc_program: Map<Seq<char>, (u64, u64)>,
    pub dev_data: Map<Seq<char>, (u64, u64)>,
    pub qc_data: Map<Seq<char>, (u64, u64)>,
    pub dev_output: Map<Seq<char>, (u64, u64)>,
    pub qc_files: Map<Seq<char>, (u64, u64)>,
    pub judgements: Seq<Judgement>,
}

impl View for Sources {
    type V = SourcesView;

    open spec fn view(&self) -> SourcesView {
        SourcesView {
            dev_program: self.dev_program@,
            qc_program: self.qc_program@,
            dev_data: self.dev_data@,
            qc_data: self.qc_data@,
            dev_output: self.dev_output@,
            qc_files: self.qc_files@,
            judgements: self.judgements@,
        }
    }
}

/// The listings of a category's folders as they were read from disk, and
/// the report judge's verdicts on the QC reports.
#[derive(Debug)]
pub struct Scan {
    /// The folder of the upstream input.
    pub upstream: Vec<Entry>,
    pub dev_program: Vec<Entry>,
    pub qc_program: Vec<Entry>,
    pub dev_data: Vec<Entry>,
    pub qc_data: Vec<Entry>,
    /// The folder of the outputs; empty for a category that has none.
    pub dev_output: Vec<Entry>,
    pub qc_files: Vec<Entry>,
    pub judgements: Vec<Judgement>,
}

/// The extensions of the files that count in a program folder.
pub open spec fn program_extensions() -> Seq<Seq<char>> {
    seq![".sas"@, ".log"@]
}

/// The extensions of the files that count in a dataset folder that holds
/// transport files too.
pub open spec fn dataset_extensions() -> Seq<Seq<char>> {
    seq![".sas7bdat"@, ".xpt"@]
}

/// The extension of the files that count in a dataset folder without
/// transport files.
pub open spec fn plain_dataset_extensions() -> Seq<Seq<char>> {
    seq![".sas7bdat"@]
}

/// The extension of the files that count in a folder of reports.
pub open spec fn report_extensions() -> Seq<Seq<char>> {
    seq![".rtf"@]
}

/// The snapshot of a program folder: its `.sas` and `.log` files.
pub fn program_files(listing: &Vec<Entry>) -> (s: Snapshot)
    ensures
        s@ == recorded(entries_of(listing@), program_extensions()),
{
    let mut extensions: Vec<String> = Vec::new();
    extensions.push(".sas".to_owned());
    extensions.push(".log".to_owned());
    proof {
        assert(texts_of(extensions@) =~= program_extensions());
    }
    Snapshot::scan(listing, &extensions)
}

/// The snapshot of a dataset folder: its `.sas7bdat` files and, where the
/// folder holds transport files, its `.xpt` files.
pub fn dataset_files(listing: &Vec<Entry>, transport: bool) -> (s: Snapshot)
    ensures
        s@ == recorded(
            entries_of(listing@),
            if transport {
                dataset_extensions()
            } else {
                plain_dataset_extensions()
            },
        ),
{
    let mut extensions: Vec<String> = Vec::new();
    extensions.push(".sas7bdat".to_owned());
    if transport {
        extensions.push(".xpt".to_owned());
        proof {
            assert(texts_of(extensions@) =~= dataset_extensions());
        }
    } else {
        proof {
            assert(texts_of(extensions@) =~= plain_dataset_extensions());
        }
    }
    Snapshot::scan(listing, &extensions)
}

/// The snapshot of a folder of reports: its `.rtf` files.
pub fn report_files(listing: &Vec<Entry>) -> (s: Snapshot)
    ensures
        s@ == recorded(entries_of(listing@), report_extensions()),
{
    let mut extensions: Vec<String> = Vec::new();
    extensions.push(".rtf".to_owned());
    proof {
        assert(texts_of(extensions@) =~= report_extensions());
    }
    Snapshot::scan(listing, &extensions)
}

/// What a scan shows of a category: of each folder the files with the
/// extensions that count there.
pub open spec fn sources_of(scan: Scan, transport: bool) -> SourcesView {
    SourcesView {
        dev_program: recorded(entries_of(scan.dev_program@), program_extensions()),
        qc_program: recorded(entries_of(scan.qc_program@), program_extensions()),
        dev_data: recorded(
            entries_of(scan.dev_data@),
            if transport {
                dataset_extensions()
            } else {
                plain_dataset_extensions()
            },
        ),
        qc_data: recorded(
            entries_of(scan.qc_data@),
            if transport {
                dataset_extensions()
            } else {
                plain_dataset_extensions()
            },
        ),
        dev_output: recorded(entries_of(scan.dev_output@), report_extensions()),
        qc_files: recorded(entries_of(scan.qc_files@), report_extensions()),
        judgements: scan.judgements@,
    }
}

/// The time at which the upstream input of a scan last changed.
pub open spec fn watermark_of(scan: Scan) -> u64 {
    latest_in(entries_of(scan.upstream@))
}

/// The folder in which a track keeps the files of a kind, if it keeps any.
pub open spec fn folder_of(src: SourcesView, group: GroupKind, kind: FileKind) -> Option<
    Map<Seq<char>, (u64, u64)>,
> {
    match group {
        GroupKind::Dev => match kind {
            FileKind::SasData => Some(src.dev_data),
            FileKind::SasCode => Some(src.dev_program),
            FileKind::SasLog => Some(src.dev_program),
            FileKind::Xpt => Some(src.dev_data),
            FileKind::Output => Some(src.dev_output),
            _ => None,
        },
        GroupKind::Qc => match kind {
            FileKind::SasData => Some(src.qc_data),
            FileKind::SasCode => Some(src.qc_program),
            FileKind::SasLog => Some(src.qc_program),
            FileKind::QcResult => Some(src.qc_files),
            FileKind::Xpt => Some(src.qc_data),
            _ => None,
        },
    }
}

/// Whether a track keeps files of a kind.
pub open spec fn keeps(group: GroupKind, kind: FileKind) -> bool {
    match group {
        GroupKind::Dev => kind == FileKind::SasData || kind == FileKind::SasCode || kind
            == FileKind::SasLog || kind == FileKind::Xpt || kind == FileKind::Output,
        GroupKind::Qc => kind == FileKind::SasData || kind == FileKind::SasCode || kind
            == FileKind::SasLog || kind == FileKind::QcResult || kind == FileKind::Xpt,
    }
}

/// Whether a track keeps the files of every kind of a chain.
pub open spec fn all_kept(group: GroupKind, roles: Seq<Role>) -> bool {
    forall|i: int| 0 <= i < roles.len() ==> keeps(group, (#[trigger] roles[i]).kind)
}

/// The file of a slot as the snapshot of its folder shows it: required, of
/// the slot's kind, and either missing or fine with the size and time that
/// were seen. A QC report that was found is fine only if the judge found a
/// match.
pub open spec fn observed(
    src: SourcesView,
    id: Seq<char>,
    kind: FileKind,
    group: GroupKind,
    supp: bool,
) -> FileView {
    let name = slot_filename_of(id, group, kind, supp);
    let absent = FileView {
        name,
        size: 0,
        required: true,
        modified_at: 0,
        kind,
        supp,
        status: FileStatus::Missing,
    };
    match folder_of(src, group, kind) {
        Some(folder) => if folder.contains_key(name) {
            FileView {
                size: folder[name].0,
                modified_at: folder[name].1,
                status: if kind == FileKind::QcResult && !is_matched(src.judgements, name) {
                    FileStatus::NotMatch
                } else {
                    FileStatus::Fine
                },
                ..absent
            }
        } else {
            absent
        },
        None => absent,
    }
}

/// The files of a chain as observed, in the order of the chain.
pub open spec fn observed_chain(
    src: SourcesView,
    id: Seq<char>,
    group: GroupKind,
    roles: Seq<Role>,
) -> Seq<FileView> {
    roles.map_values(|r: Role| observed(src, id, r.kind, group, r.supp))
}

/// The group of the production track: the files of its chain with their
/// outcomes, and the status of the chain.
pub open spec fn production_group(
    src: SourcesView,
    id: Seq<char>,
    roles: Seq<Role>,
    rules: Rules,
) -> GroupView {
    let files = observed_chain(src, id, GroupKind::Dev, roles);
    GroupView { status: chain_status(files, rules), ..GroupView::blank().with_files(chain_marks(files, rules)) }
}

/// The datasets that a QC report compares: those of both tracks, and those
/// of the supplementary domain where there is one.
pub open spec fn compared(src: SourcesView, id: Seq<char>, supp: bool) -> Seq<FileView> {
    let main = seq![
        observed(src, id, FileKind::SasData, GroupKind::Qc, false),
        observed(src, id, FileKind::SasData, GroupKind::Dev, false),
    ];
    if supp {
        main + seq![
            observed(src, id, FileKind::SasData, GroupKind::Qc, true),
            observed(src, id, FileKind::SasData, GroupKind::Dev, true),
        ]
    } else {
        main
    }
}

/// The validation track of a deliverable after the QC stage.
pub struct Validation {
    /// The files with their outcomes, and the track's status.
    pub group: GroupView,
    /// The status that the supplementary QC report gives the track, for a
    /// deliverable with a supplementary domain.
    pub supp: Option<GroupStatus>,
}

/// The validation track: its own chain is audited, then the QC stage
/// decides on the main report and, for a deliverable with a supplementary
/// domain, on the supplementary report.
pub open spec fn validation(
    src: SourcesView,
    id: Seq<char>,
    roles: Seq<Role>,
    rules: Rules,
    supp: bool,
) -> Validation {
    let files = observed_chain(src, id, GroupKind::Qc, roles);
    let base = chain_status(files, rules);
    let previous = latest_seen(compared(src, id, supp));
    let report = observed(src, id, FileKind::QcResult, GroupKind::Qc, false);
    let main = GroupView::blank().with_files(chain_marks(files, rules)).with_file(
        report.with_status(qc_mark(base, previous, report)),
    );
    if supp {
        let second = observed(src, id, FileKind::QcResult, GroupKind::Qc, true);
        Validation {
            group: GroupView {
                status: qc_status(base, previous, report),
                ..main.with_file(second.with_status(qc_mark(base, previous, second)))
            },
            supp: Some(qc_status(base, previous, second)),
        }
    } else {
        Validation { group: GroupView { status: qc_status(base, previous, report), ..main }, supp: None }
    }
}

/// The validation track of a deliverable for which no QC is asked: its
/// files as observed, without a QC report, and nothing audited.
pub open spec fn unaudited(src: SourcesView, id: Seq<char>, roles: Seq<Role>) -> GroupView {
    GroupView {
        status: GroupStatus::NotApplicable,
        ..GroupView::blank().with_files(observed_chain(src, id, GroupKind::Qc, roles))
    }
}

/// The names of the QC reports of a deliverable: that of the deliverable
/// itself and, where it has a supplementary domain, that of the domain.
pub open spec fn report_names_of(id: Seq<char>, supp: bool) -> Seq<Seq<char>> {
    let main = seq![slot_filename_of(id, GroupKind::Qc, FileKind::QcResult, false)];
    if supp {
        main.push(slot_filename_of(id, GroupKind::Qc, FileKind::QcResult, true))
    } else {
        main
    }
}

/// Adds the names of the QC reports of a deliverable to a list of names.
pub fn add_report_names(names: &mut Vec<String>, id: &str, supp: bool)
    ensures
        texts_of(final(names)@) == texts_of(old(names)@) + report_names_of(id@, supp),
{
    let ghost before = texts_of(names@);
    names.push(slot_filename(id, GroupKind::Qc, FileKind::QcResult, false));
    if supp {
        names.push(slot_filename(id, GroupKind::Qc, FileKind::QcResult, true));
    }
    proof {
        assert(texts_of(names@) =~= before + report_names_of(id@, supp));
    }
}

impl Sources {
    /// The snapshots of the folders of a scan. `transport` says whether the
    /// dataset folders hold transport files.
    pub fn new(scan: Scan, transport: bool) -> (r: Sources)
        ensures
            r@ == sources_of(scan, transport),
    {
        Sources {
            dev_program: program_files(&scan.dev_program),
            qc_program: program_files(&scan.qc_program),
            dev_data: dataset_files(&scan.dev_data, transport),
            qc_data: dataset_files(&scan.qc_data, transport),
            dev_output: report_files(&scan.dev_output),
            qc_files: report_files(&scan.qc_files),
            judgements: scan.judgements,
        }
    }

    /// The snapshot of the folder in which a track keeps the files of a
    /// kind.
    pub fn folder(&self, group: GroupKind, kind: FileKind) -> (r: Result<&Snapshot, InspectError>)
        ensures
            r is Ok <==> keeps(group, kind),
            r matches Ok(s) ==> Some(s@) == folder_of(self@, group, kind),
            r matches Err(e) ==> e == InspectError::InvalidFileKind(group),
    {
        match group {
            GroupKind::Dev => match kind {
                FileKind::SasData => Ok(&self.dev_data),
                FileKind::SasCode => Ok(&self.dev_program),
                FileKind::SasLog => Ok(&self.dev_program),
                FileKind::Xpt => Ok(&self.dev_data),
                FileKind::Output => Ok(&self.dev_output),
                _ => Err(InspectError::InvalidFileKind(group)),
            },
            GroupKind::Qc => match kind {
                FileKind::SasData => Ok(&self.qc_data),
                FileKind::SasCode => Ok(&self.qc_program),
                FileKind::SasLog => Ok(&self.qc_program),
                FileKind::QcResult => Ok(&self.qc_files),
                FileKind::Xpt => Ok(&self.qc_data),
                _ => Err(InspectError::InvalidFileKind(group)),
            },
        }
    }

    /// The file of a slot as the snapshots show it. Fails for a kind that
    /// the track does not keep.
    pub fn file(&self, id: &str, kind: FileKind, group: GroupKind, supp: bool) -> (r: Result<
        File,
        InspectError,
    >)
        ensures
            r is Ok <==> keeps(group, kind),
            r matches Ok(f) ==> f@ == observed(self@, id@, kind, group, supp),
            r matches Err(e) ==> e == InspectError::InvalidFileKind(group),
    {
        let folder = match self.folder(group, kind) {
            Ok(folder) => folder,
            Err(e) => {
                return Err(e);
            },
        };
        let filename = slot_filename(id, group, kind, supp);
        let mut f = File::new(filename.as_str());
        if supp {
            f.supp();
        }
        f.require().set_kind(kind);
        match folder.get(filename.as_str()) {
            Some((size, modified_at)) => {
                f.update_modified_at(modified_at).set_size(size);
                match kind {
                    FileKind::QcResult => {
                        if matched(&self.judgements, filename.as_str()) {
                            f.fine();
                        } else {
                            f.not_match();
                        }
                    },
                    _ => {
                        f.fine();
                    },
                }
            },
            None => {
                f.missing();
            },
        }
        Ok(f)
    }

    /// The files of a chain as the snapshots show them. Fails when the
    /// chain holds a kind that the track does not keep.
    pub fn chain(&self, id: &str, group: GroupKind, roles: &Vec<Role>) -> (r: Result<
        Vec<File>,
        InspectError,
    >)
        ensures
            r is Ok <==> all_kept(group, roles@),
            r matches Ok(files) ==> views_of(files@) == observed_chain(self@, id@, group, roles@),
            r matches Err(e) ==> e == InspectError::InvalidFileKind(group),
    {
        let mut files: Vec<File> = Vec::new();
        let mut i: usize = 0;
        while i < roles.len()
            invariant
                i <= roles.len(),
                forall|j: int| 0 <= j < i ==> keeps(group, (#[trigger] roles[j]).kind),
                views_of(files@) == observed_chain(self@, id@, group, roles@).take(i as int),
            decreases roles.len() - i,
        {
            let role = roles[i];
            let ghost before = views_of(files@);
            match self.file(id, role.kind, group, role.supp) {
                Ok(f) => {
                    files.push(f);
                    proof {
                        let all = observed_chain(self@, id@, group, roles@);
                        assert(views_of(files@) =~= before.push(all[i as int]));
                        assert(all.take(i + 1) =~= all.take(i as int).push(all[i as int]));
                    }
                },
                Err(e) => {
                    return Err(e);
                },
            }
            i = i + 1;
        }
        proof {
            let all = observed_chain(self@, id@, group, roles@);
            assert(all.take(roles.len() as int) =~= all);
        }
        Ok(files)
    }

    /// Audits the production track of a deliverable. Fails when the chain
    /// holds a kind that the track does not keep.
    pub fn production(&self, id: &str, roles: &Vec<Role>, rules: &Rules) -> (r: Result<
        Group,
        InspectError,
    >)
        ensures
            r is Ok <==> all_kept(GroupKind::Dev, roles@),
            r matches Ok(g) ==> g@ == production_group(self@, id@, roles@, *rules),
            r matches Err(e) ==> e == InspectError::InvalidFileKind(GroupKind::Dev),
    {
        let files = match self.chain(id, GroupKind::Dev, roles) {
            Ok(files) => files,
            Err(e) => {
                return Err(e);
            },
        };
        let (status, marked) = audit_chain(&files, rules);
        let mut g = Group::new();
        g.set_files(marked).set_status(status);
        Ok(g)
    }

    /// The time of the newest dataset that the QC reports of a deliverable
    /// compare.
    pub fn previous(&self, id: &str, supp: bool) -> (t: u64)
        ensures
            t == latest_seen(compared(self@, id@, supp)),
    {
        let mut t: u64 = 0;
        proof {
            reveal_with_fuel(latest_seen, 5);
            let all = compared(self@, id@, supp);
            if supp {
                let three = all.drop_last();
                let two = three.drop_last();
                let one = two.drop_last();
                assert(one.drop_last() =~= Seq::<FileView>::empty());
            } else {
                let one = all.drop_last();
                assert(one.drop_last() =~= Seq::<FileView>::empty());
            }
        }
        if let Ok(f) = self.file(id, FileKind::SasData, GroupKind::Qc, false) {
            t = later_of(t, &f);
        }
        if let Ok(f) = self.file(id, FileKind::SasData, GroupKind::Dev, false) {
            t = later_of(t, &f);
        }
        if supp {
            if let Ok(f) = self.file(id, FileKind::SasData, GroupKind::Qc, true) {
                t = later_of(t, &f);
            }
            if let Ok(f) = self.file(id, FileKind::SasData, GroupKind::Dev, true) {
                t = later_of(t, &f);
            }
        }
        t
    }

    /// Audits the validation track of a deliverable: its own chain first,
    /// then the QC stage. Returns the group and, for a deliverable with a
    /// supplementary domain, the status that the supplementary QC report
    /// gives the track. Fails when the chain holds a kind that the track
    /// does not keep.
    pub fn validation(&self, id: &str, roles: &Vec<Role>, rules: &Rules, supp: bool) -> (r: Result<
        (Group, Option<GroupStatus>),
        InspectError,
    >)
        ensures
            r is Ok <==> all_kept(GroupKind::Qc, roles@),
            r matches Ok(found) ==> found.0@ == validation(self@, id@, roles@, *rules, supp).group
                && found.1 == validation(self@, id@, roles@, *rules, supp).supp,
            r matches Err(e) ==> e == InspectError::InvalidFileKind(GroupKind::Qc),
    {
        let files = match self.chain(id, GroupKind::Qc, roles) {
            Ok(files) => files,
            Err(e) => {
                return Err(e);
            },
        };
        let (base, marked) = audit_chain(&files, rules);
        let previous = self.previous(id, supp);
        let mut g = Group::new();
        g.set_files(marked);
        let mut status = base;
        if let Ok(report) = self.file(id, FileKind::QcResult, GroupKind::Qc, false) {
            let (resolved, report) = resolve_qc(base, previous, &report);
            status = resolved;
            g.set_file(report);
        }
        let mut second_status: Option<GroupStatus> = None;
        if supp {
            if let Ok(second) = self.file(id, FileKind::QcResult, GroupKind::Qc, true) {
                let (resolved, second) = resolve_qc(base, previous, &second);
                second_status = Some(resolved);
                g.set_file(second);
            }
        }
        g.set_status(status);
        Ok((g, second_status))
    }

    /// The validation track of a deliverable for which no QC is asked.
    /// Fails when the chain holds a kind that the track does not keep.
    pub fn unaudited(&self, id: &str, roles: &Vec<Role>) -> (r: Result<Group, InspectError>)
        ensures
            r is Ok <==> all_kept(GroupKind::Qc, roles@),
            r matches Ok(g) ==> g@ == unaudited(self@, id@, roles@),
            r matches Err(e) ==> e == InspectError::InvalidFileKind(GroupKind::Qc),
    {
        let files = match self.chain(id, GroupKind::Qc, roles) {
            Ok(files) => files,
            Err(e) => {
                return Err(e);
            },
        };
        let mut g = Group::new();
        g.set_files(files).set_status(GroupStatus::NotApplicable);
        Ok(g)
    }
}

} // verus!
