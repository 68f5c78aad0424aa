//! The inspector of the tables, figures and listings. The upstream input
//! of an output is the ADaM data of the production track.

use vstd::prelude::*;

use crate::chain::{audit_chain, chain_marks, chain_status, Rules};
use crate::error::InspectError;
use crate::module::file::{views_of, File, FileKind};
use crate::module::group::{Group, GroupKind, GroupStatus};
use crate::module::item::{Item, ItemView};
use crate::module::module::Module;
use crate::module::paths::{Paths, PathsView};
use crate::snapshot::{entries_of, latest_timestamp, recorded, texts_of, Entry, Snapshot};
use crate::track::{
    add_report_names, dataset_files, keeps, observed, plain_dataset_extensions, production_group,
    program_extensions, program_files, report_extensions, report_files, report_names_of,
    sources_of, unaudited, validation, watermark_of, Role, Scan, Sources, SourcesView,
};
use crate::text::{dashes_to_underscores, underscored};

verus! {

/// The size up to which a program counts as an untouched template, on the
/// production track.
pub const DEV_INIT_SIZE: u64 = 2300;

/// The size up to which a program counts as an untouched template, on the
/// validation track.
pub const QC_INIT_SIZE: u64 = 2700;

/// The size up to which a program counts as an untouched template.
pub open spec fn init_size_of(is_qc: bool) -> u64 {
    if is_qc {
        QC_INIT_SIZE
    } else {
        DEV_INIT_SIZE
    }
}

/// The size up to which a program counts as an untouched template.
pub fn init_size(is_qc: bool) -> (r: u64)
    ensures
        r == init_size_of(is_qc),
{
    if is_qc {
        return QC_INIT_SIZE;
    }
    DEV_INIT_SIZE
}

/// The chain of an output's production track: program, dataset, output,
/// log.
pub open spec fn production_roles() -> Seq<Role> {
    seq![
        Role { kind: FileKind::SasCode, supp: false },
        Role { kind: FileKind::SasData, supp: false },
        Role { kind: FileKind::Output, supp: false },
        Role { kind: FileKind::SasLog, supp: false },
    ]
}

/// The chain of an output's validation track before the QC stage: program,
/// dataset, log.
pub open spec fn validation_roles() -> Seq<Role> {
    seq![
        Role { kind: FileKind::SasCode, supp: false },
        Role { kind: FileKind::SasData, supp: false },
        Role { kind: FileKind::SasLog, supp: false },
    ]
}

/// What a track of an output is held against.
pub open spec fn rules_of(latest_adam_data: u64, is_qc: bool) -> Rules {
    Rules { watermark: latest_adam_data, init_size: Some(init_size_of(is_qc)) }
}

/// The audited output `name`. Where no QC is asked for the output, its
/// validation track is not audited.
pub open spec fn item_of(src: SourcesView, name: Seq<char>, need_qc: bool, latest_adam_data: u64)
    -> ItemView {
    ItemView {
        name,
        dev: production_group(src, name, production_roles(), rules_of(latest_adam_data, false)),
        qc: if need_qc {
            validation(src, name, validation_roles(), rules_of(latest_adam_data, true), false).group
        } else {
            unaudited(src, name, validation_roles())
        },
        qc_supp: None,
    }
}

/// The views of a catalog of outputs: the name of each and whether QC is
/// asked for it.
pub open spec fn catalog_of(tops: Seq<(String, bool)>) -> Seq<(Seq<char>, bool)> {
    crate::tfls::top::catalog_view(tops)
}

/// `name` as files of a kind spell it: with `_` for `-` in the names of
/// datasets and QC reports.
pub open spec fn converted(name: Seq<char>, kind: FileKind) -> Seq<char> {
    if kind == FileKind::SasData || kind == FileKind::QcResult {
        underscored(name)
    } else {
        name
    }
}

/// `name` as files of a kind spell it.
pub fn file_name_convert(name: &str, kind: FileKind) -> (r: String)
    ensures
        r@ == converted(name@, kind),
{
    match kind {
        FileKind::SasData | FileKind::QcResult => dashes_to_underscores(name),
        _ => name.to_owned(),
    }
}

/// The names of the QC reports whose verdicts the audit of the first
/// `upto` outputs of a catalog reads: the report of each output for which
/// QC is asked.
pub open spec fn reports_upto(tops: Seq<(Seq<char>, bool)>, upto: int) -> Seq<Seq<char>>
    decreases upto,
{
    if upto <= 0 || upto > tops.len() {
        Seq::empty()
    } else if tops[upto - 1].1 {
        reports_upto(tops, upto - 1) + report_names_of(tops[upto - 1].0, false)
    } else {
        reports_upto(tops, upto - 1)
    }
}

/// The inspector of the tables, figures and listings of a study.
#[derive(Debug)]
pub struct Inspector {
    tops: Vec<(String, bool)>,
    paths: Paths,
    latest_adam_data: u64,
    sources: Sources,
}

/// The mathematical content of an [`Inspector`].
pub struct InspectorView {
    pub tops: Seq<(Seq<char>, bool)>,
    pub paths: PathsView,
    pub latest_adam_data: u64,
    pub sources: SourcesView,
}

impl View for Inspector {
    type V = InspectorView;

    closed spec fn view(&self) -> InspectorView {
        InspectorView {
            tops: catalog_of(self.tops@),
            paths: self.paths@,
            latest_adam_data: self.latest_adam_data,
            sources: self.sources@,
        }
    }
}

impl InspectorView {
    /// The audited outputs, in the order of the catalog.
    pub open spec fn items(self) -> Seq<ItemView> {
        self.tops.map_values(
            |s: (Seq<char>, bool)| item_of(self.sources, s.0, s.1, self.latest_adam_data),
        )
    }
}

impl Inspector {
    /// An inspector for the outputs of `tops`, from what was seen in the
    /// folders of the study.
    pub fn new(tops: Vec<(String, bool)>, paths: Paths, scan: Scan) -> (i: Inspector)
        ensures
            i@ == (InspectorView {
                tops: catalog_of(tops@),
                paths: paths@,
                latest_adam_data: watermark_of(scan),
                sources: sources_of(scan, false),
            }),
    {
        let latest_adam_data = latest_timestamp(&scan.upstream);
        Inspector { tops, paths, latest_adam_data, sources: Sources::new(scan, false) }
    }

    /// Audits every output of the catalog.
    pub fn module(&self) -> (r: Result<Module, InspectError>)
        ensures
            r matches Ok(m) && m@ == self@.items(),
    {
        let mut m = Module::new();
        let mut n: usize = 0;
        while n < self.tops.len()
            invariant
                n <= self.tops.len(),
                m@ == self@.items().take(n as int),
            decreases self.tops.len() - n,
        {
            let name = self.tops[n].0.as_str();
            let need_qc = self.tops[n].1;
            let mut item = Item::new(name);
            let dev = match self.update_dev_status(name) {
                Ok(dev) => dev,
                Err(e) => {
                    return Err(e);
                },
            };
            let audited = if need_qc {
                self.update_qc_status(name)
            } else {
                let roles = Self::qc_roles();
                self.sources.unaudited(name, &roles)
            };
            let qc = match audited {
                Ok(qc) => qc,
                Err(e) => {
                    return Err(e);
                },
            };
            item.set_dev(dev).set_qc(qc);
            m.set_item(item);
            proof {
                let all = self@.items();
                assert(all.take(n + 1) =~= all.take(n as int).push(all[n as int]));
            }
            n = n + 1;
        }
        proof {
            let all = self@.items();
            assert(all.take(self.tops.len() as int) =~= all);
        }
        Ok(m)
    }

    /// The chain of the production track.
    pub fn dev_roles() -> (roles: Vec<Role>)
        ensures
            roles@ == production_roles(),
    {
        let mut roles: Vec<Role> = Vec::new();
        roles.push(Role { kind: FileKind::SasCode, supp: false });
        roles.push(Role { kind: FileKind::SasData, supp: false });
        roles.push(Role { kind: FileKind::Output, supp: false });
        roles.push(Role { kind: FileKind::SasLog, supp: false });
        proof {
            assert(roles@ =~= production_roles());
        }
        roles
    }

    /// The chain of the validation track before the QC stage.
    pub fn qc_roles() -> (roles: Vec<Role>)
        ensures
            roles@ == validation_roles(),
    {
        let mut roles: Vec<Role> = Vec::new();
        roles.push(Role { kind: FileKind::SasCode, supp: false });
        roles.push(Role { kind: FileKind::SasData, supp: false });
        roles.push(Role { kind: FileKind::SasLog, supp: false });
        proof {
            assert(roles@ =~= validation_roles());
        }
        roles
    }

    /// The group of the production track of an output, audited.
    fn update_dev_status(&self, name: &str) -> (r: Result<Group, InspectError>)
        ensures
            r matches Ok(g) && g@ == production_group(
                self@.sources,
                name@,
                production_roles(),
                rules_of(self@.latest_adam_data, false),
            ),
    {
        let roles = Self::dev_roles();
        let rules = Rules { watermark: self.latest_adam_data, init_size: Some(init_size(false)) };
        self.sources.production(name, &roles, &rules)
    }

    /// The group of the validation track of an output, audited: its own
    /// chain first, then the QC report.
    fn update_qc_status(&self, name: &str) -> (r: Result<Group, InspectError>)
        ensures
            r matches Ok(g) && g@ == validation(
                self@.sources,
                name@,
                validation_roles(),
                rules_of(self@.latest_adam_data, true),
                false,
            ).group,
    {
        let roles = Self::qc_roles();
        let rules = Rules { watermark: self.latest_adam_data, init_size: Some(init_size(true)) };
        match self.sources.validation(name, &roles, &rules, false) {
            Ok(found) => Ok(found.0),
            Err(e) => Err(e),
        }
    }

    /// The snapshot of a program folder.
    pub fn program_files_map(listing: &Vec<Entry>) -> (s: Snapshot)
        ensures
            s@ == recorded(entries_of(listing@), program_extensions()),
    {
        program_files(listing)
    }

    /// The snapshot of a dataset folder.
    pub fn datasets_files_map(listing: &Vec<Entry>) -> (s: Snapshot)
        ensures
            s@ == recorded(entries_of(listing@), plain_dataset_extensions()),
    {
        dataset_files(listing, false)
    }

    /// The snapshot of the folder of outputs.
    pub fn outputs_files_map(listing: &Vec<Entry>) -> (s: Snapshot)
        ensures
            s@ == recorded(entries_of(listing@), report_extensions()),
    {
        report_files(listing)
    }

    /// The snapshot of the folder of QC reports.
    pub fn qc_files_map(listing: &Vec<Entry>) -> (s: Snapshot)
        ensures
            s@ == recorded(entries_of(listing@), report_extensions()),
    {
        report_files(listing)
    }

    /// The file of an output in a role on a track, as it was seen. Fails
    /// for a kind that the track does not keep.
    pub fn file(&self, output: &str, file_kind: FileKind, group_kind: GroupKind) -> (r: Result<
        File,
        InspectError,
    >)
        ensures
            r is Ok <==> keeps(group_kind, file_kind),
            r matches Ok(f) ==> f@ == observed(self@.sources, output@, file_kind, group_kind, false),
            r matches Err(e) ==> e == InspectError::InvalidFileKind(group_kind),
    {
        self.sources.file(output, file_kind, group_kind, false)
    }

    /// The status of a chain of files given in canonical order, and the
    /// files with their outcomes.
    pub fn update_status(&self, expect: &Vec<File>, is_qc: bool) -> (r: (GroupStatus, Vec<File>))
        ensures
            r.0 == chain_status(views_of(expect@), rules_of(self@.latest_adam_data, is_qc)),
            views_of(r.1@) == chain_marks(
                views_of(expect@),
                rules_of(self@.latest_adam_data, is_qc),
            ),
    {
        let rules = Rules { watermark: self.latest_adam_data, init_size: Some(init_size(is_qc)) };
        audit_chain(expect, &rules)
    }

    /// When the ADaM data last changed.
    pub fn latest_adam_data(&self) -> (t: u64)
        ensures
            t == self@.latest_adam_data,
    {
        self.latest_adam_data
    }
}

/// The names of the QC reports whose verdicts the audit of a catalog
/// reads, in the order of the catalog.
pub fn judged_reports(tops: &Vec<(String, bool)>) -> (names: Vec<String>)
    ensures
        texts_of(names@) == reports_upto(catalog_of(tops@), tops.len() as int),
{
    let mut names: Vec<String> = Vec::new();
    let mut n: usize = 0;
    proof {
        assert(texts_of(names@) =~= Seq::empty());
    }
    while n < tops.len()
        invariant
            n <= tops.len(),
            texts_of(names@) == reports_upto(catalog_of(tops@), n as int),
        decreases tops.len() - n,
    {
        assert(catalog_of(tops@)[n as int] == (tops@[n as int].0@, tops@[n as int].1));
        if tops[n].1 {
            add_report_names(&mut names, tops[n].0.as_str(), false);
        }
        n = n + 1;
    }
    names
}

} // verus!
