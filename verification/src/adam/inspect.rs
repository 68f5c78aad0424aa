//! The inspector of the ADaM datasets. The upstream input of an analysis
//! dataset is the SDTM data of the production track.

use vstd::prelude::*;

use crate::chain::{audit_chain, chain_marks, chain_status, Rules};
use crate::error::InspectError;
use crate::module::file::{views_of, File, FileKind};
use crate::module::group::{Group, GroupKind, GroupStatus};
use crate::module::item::{Item, ItemView};
use crate::module::module::Module;
use crate::module::paths::{Paths, PathsView};
use crate::snapshot::{entries_of, latest_timestamp, recorded, texts_of, Entry, Snapshot};
use crate::track::{
    add_report_names, dataset_extensions, dataset_files, keeps, observed, production_group,
    program_extensions, program_files, report_extensions, report_files, report_names_of,
    sources_of, validation, watermark_of, Role, Scan, Sources, SourcesView,
};

verus! {

/// The size up to which a program counts as an untouched template, on the
/// production track.
pub const DEV_INIT_SIZE: u64 = 2750;

/// The size up to which a program counts as an untouched template, on the
/// validation track.
pub const QC_INIT_SIZE: u64 = 2900;

/// The size up to which a program counts as an untouched template.
pub open spec fn init_size_of(is_qc: bool) -> u64 {
    if is_qc {
        QC_INIT_SIZE
    } else {
        DEV_INIT_SIZE
    }
}

/// The size up to which a program counts as an untouched template.
pub fn init_size(is_qc: bool) -> (r: u64)
    ensures
        r == init_size_of(is_qc),
{
    if is_qc {
        return QC_INIT_SIZE;
    }
    DEV_INIT_SIZE
}

/// The chain of a dataset's production track: program, dataset, transport
/// file, log.
pub open spec fn production_roles() -> Seq<Role> {
    seq![
        Role { kind: FileKind::SasCode, supp: false },
        Role { kind: FileKind::SasData, supp: false },
        Role { kind: FileKind::Xpt, supp: false },
        Role { kind: FileKind::SasLog, supp: false },
    ]
}

/// The chain of a dataset's validation track before the QC stage: program,
/// dataset, log.
pub open spec fn validation_roles() -> Seq<Role> {
    seq![
        Role { kind: FileKind::SasCode, supp: false },
        Role { kind: FileKind::SasData, supp: false },
        Role { kind: FileKind::SasLog, supp: false },
    ]
}

/// What a track of a dataset is held against.
pub open spec fn rules_of(latest_sdtm_data: u64, is_qc: bool) -> Rules {
    Rules { watermark: latest_sdtm_data, init_size: Some(init_size_of(is_qc)) }
}

/// The audited dataset `name`.
pub open spec fn item_of(src: SourcesView, name: Seq<char>, latest_sdtm_data: u64) -> ItemView {
    ItemView {
        name,
        dev: production_group(src, name, production_roles(), rules_of(latest_sdtm_data, false)),
        qc: validation(src, name, validation_roles(), rules_of(latest_sdtm_data, true), false).group,
        qc_supp: None,
    }
}

/// The views of a catalog of datasets.
pub open spec fn catalog_of(specs: Seq<String>) -> Seq<Seq<char>> {
    crate::adam::spec::catalog_view(specs)
}

/// The names of the QC reports whose verdicts the audit of the first
/// `upto` datasets of a catalog reads: the report of each.
pub open spec fn reports_upto(specs: Seq<Seq<char>>, upto: int) -> Seq<Seq<char>>
    decreases upto,
{
    if upto <= 0 || upto > specs.len() {
        Seq::empty()
    } else {
        reports_upto(specs, upto - 1) + report_names_of(specs[upto - 1], false)
    }
}

/// The inspector of the ADaM datasets of a study.
#[derive(Debug)]
pub struct Inspector {
    specs: Vec<String>,
    paths: Paths,
    latest_sdtm_data: u64,
    sources: Sources,
}

/// The mathematical content of an [`Inspector`].
pub struct InspectorView {
    pub specs: Seq<Seq<char>>,
    pub paths: PathsView,
    pub latest_sdtm_data: u64,
    pub sources: SourcesView,
}

impl View for Inspector {
    type V = InspectorView;

    closed spec fn view(&self) -> InspectorView {
        InspectorView {
            specs: catalog_of(self.specs@),
            paths: self.paths@,
            latest_sdtm_data: self.latest_sdtm_data,
            sources: self.sources@,
        }
    }
}

impl InspectorView {
    /// The audited datasets, in the order of the catalog.
    pub open spec fn items(self) -> Seq<ItemView> {
        self.specs.map_values(|s: Seq<char>| item_of(self.sources, s, self.latest_sdtm_data))
    }
}

impl Inspector {
    /// An inspector for the datasets of `specs`, from what was seen in the
    /// folders of the study.
    pub fn new(specs: Vec<String>, paths: Paths, scan: Scan) -> (i: Inspector)
        ensures
            i@ == (InspectorView {
                specs: catalog_of(specs@),
                paths: paths@,
                latest_sdtm_data: watermark_of(scan),
                sources: sources_of(scan, true),
            }),
    {
        let latest_sdtm_data = latest_timestamp(&scan.upstream);
        Inspector { specs, paths, latest_sdtm_data, sources: Sources::new(scan, true) }
    }

    /// Audits every dataset of the catalog.
    pub fn module(&self) -> (r: Result<Module, InspectError>)
        ensures
            r matches Ok(m) && m@ == self@.items(),
    {
        let mut m = Module::new();
        let mut n: usize = 0;
        while n < self.specs.len()
            invariant
                n <= self.specs.len(),
                m@ == self@.items().take(n as int),
            decreases self.specs.len() - n,
        {
            let name = self.specs[n].as_str();
            let mut item = Item::new(name);
            let dev = match self.update_dev_status(name) {
                Ok(dev) => dev,
                Err(e) => {
                    return Err(e);
                },
            };
            let qc = match self.update_qc_status(name) {
                Ok(qc) => qc,
                Err(e) => {
                    return Err(e);
                },
            };
            item.set_dev(dev).set_qc(qc);
            m.set_item(item);
            proof {
                let all = self@.items();
                assert(all.take(n + 1) =~= all.take(n as int).push(all[n as int]));
            }
            n = n + 1;
        }
        proof {
            let all = self@.items();
            assert(all.take(self.specs.len() as int) =~= all);
        }
        Ok(m)
    }

    /// The chain of the production track.
    pub fn dev_roles() -> (roles: Vec<Role>)
        ensures
            roles@ == production_roles(),
    {
        let mut roles: Vec<Role> = Vec::new();
        roles.push(Role { kind: FileKind::SasCode, supp: false });
        roles.push(Role { kind: FileKind::SasData, supp: false });
        roles.push(Role { kind: FileKind::Xpt, supp: false });
        roles.push(Role { kind: FileKind::SasLog, supp: false });
        proof {
            assert(roles@ =~= production_roles());
        }
        roles
    }

    /// The chain of the validation track before the QC stage.
    pub fn qc_roles() -> (roles: Vec<Role>)
        ensures
            roles@ == validation_roles(),
    {
        let mut roles: Vec<Role> = Vec::new();
        roles.push(Role { kind: FileKind::SasCode, supp: false });
        roles.push(Role { kind: FileKind::SasData, supp: false });
        roles.push(Role { kind: FileKind::SasLog, supp: false });
        proof {
            assert(roles@ =~= validation_roles());
        }
        roles
    }

    /// The group of the production track of a dataset, audited.
    fn update_dev_status(&self, name: &str) -> (r: Result<Group, InspectError>)
        ensures
            r matches Ok(g) && g@ == production_group(
                self@.sources,
                name@,
                production_roles(),
                rules_of(self@.latest_sdtm_data, false),
            ),
    {
        let roles = Self::dev_roles();
        let rules = Rules { watermark: self.latest_sdtm_data, init_size: Some(init_size(false)) };
        self.sources.production(name, &roles, &rules)
    }

    /// The group of the validation track of a dataset, audited: its own
    /// chain first, then the QC report.
    fn update_qc_status(&self, name: &str) -> (r: Result<Group, InspectError>)
        ensures
            r matches Ok(g) && g@ == validation(
                self@.sources,
                name@,
                validation_roles(),
                rules_of(self@.latest_sdtm_data, true),
                false,
            ).group,
    {
        let roles = Self::qc_roles();
        let rules = Rules { watermark: self.latest_sdtm_data, init_size: Some(init_size(true)) };
        match self.sources.validation(name, &roles, &rules, false) {
            Ok(found) => Ok(found.0),
            Err(e) => Err(e),
        }
    }

    /// The snapshot of a program folder.
    pub fn program_files_map(listing: &Vec<Entry>) -> (s: Snapshot)
        ensures
            s@ == recorded(entries_of(listing@), program_extensions()),
    {
        program_files(listing)
    }

    /// The snapshot of a dataset folder.
    pub fn datasets_files_map(listing: &Vec<Entry>) -> (s: Snapshot)
        ensures
            s@ == recorded(entries_of(listing@), dataset_extensions()),
    {
        dataset_files(listing, true)
    }

    /// The snapshot of the folder of QC reports.
    pub fn qc_files_map(listing: &Vec<Entry>) -> (s: Snapshot)
        ensures
            s@ == recorded(entries_of(listing@), report_extensions()),
    {
        report_files(listing)
    }

    /// The file of a dataset in a role on a track, as it was seen. Fails
    /// for a kind that the track does not keep.
    pub fn file(&self, domain: &str, file_kind: FileKind, group_kind: GroupKind) -> (r: Result<
        File,
        InspectError,
    >)
        ensures
            r is Ok <==> keeps(group_kind, file_kind),
            r matches Ok(f) ==> f@ == observed(self@.sources, domain@, file_kind, group_kind, false),
            r matches Err(e) ==> e == InspectError::InvalidFileKind(group_kind),
    {
        self.sources.file(domain, file_kind, group_kind, false)
    }

    /// The status of a chain of files given in canonical order, and the
    /// files with their outcomes.
    pub fn update_status(&self, expect: &Vec<File>, is_qc: bool) -> (r: (GroupStatus, Vec<File>))
        ensures
            r.0 == chain_status(views_of(expect@), rules_of(self@.latest_sdtm_data, is_qc)),
            views_of(r.1@) == chain_marks(
                views_of(expect@),
                rules_of(self@.latest_sdtm_data, is_qc),
            ),
    {
        let rules = Rules { watermark: self.latest_sdtm_data, init_size: Some(init_size(is_qc)) };
        audit_chain(expect, &rules)
    }

    /// When the SDTM data last changed.
    pub fn latest_sdtm_data(&self) -> (t: u64)
        ensures
            t == self@.latest_sdtm_data,
    {
        self.latest_sdtm_data
    }
}

/// The names of the QC reports whose verdicts the audit of a catalog
/// reads, in the order of the catalog.
pub fn judged_reports(specs: &Vec<String>) -> (names: Vec<String>)
    ensures
        texts_of(names@) == reports_upto(catalog_of(specs@), specs.len() as int),
{
    let mut names: Vec<String> = Vec::new();
    let mut n: usize = 0;
    proof {
        assert(texts_of(names@) =~= Seq::empty());
    }
    while n < specs.len()
        invariant
            n <= specs.len(),
            texts_of(names@) == reports_upto(catalog_of(specs@), n as int),
        decreases specs.len() - n,
    {
        assert(catalog_of(specs@)[n as int] == specs@[n as int]@);
        add_report_names(&mut names, specs[n].as_str(), false);
        n = n + 1;
    }
    names
}

} // verus!
