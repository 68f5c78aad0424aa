//! The inspector of the SDTM domains. The upstream input of a domain is the
//! raw data.

use vstd::prelude::*;

use crate::chain::{audit_chain, chain_marks, chain_status, Rules};
use crate::error::InspectError;
use crate::module::file::{views_of, File, FileKind};
use crate::module::group::{Group, GroupKind, GroupStatus};
use crate::module::item::{Item, ItemView};
use crate::module::module::Module;
use crate::module::paths::{Paths, PathsView};
use crate::snapshot::{entries_of, latest_timestamp, recorded, texts_of, Entry, Snapshot};
use crate::track::{
    add_report_names, dataset_extensions, dataset_files, keeps, observed, production_group,
    program_extensions, program_files, report_extensions, report_files, report_names_of,
    sources_of, validation, watermark_of, Role, Scan, Sources, SourcesView,
};

verus! {

/// Whether a file belongs to the domain itself or to its supplementary
/// domain.
#[derive(Debug, Clone, Copy, PartialEq, Eq, Structural)]
pub enum DomainKind {
    Main,
    Supp,
}

/// The chain of a domain's production track: program, dataset, transport
/// file, log; with a supplementary domain, its dataset follows the main
/// dataset and its transport file the main transport file.
pub open spec fn production_roles(supp: bool) -> Seq<Role> {
    if supp {
        seq![
            Role { kind: FileKind::SasCode, supp: false },
            Role { kind: FileKind::SasData, supp: false },
            Role { kind: FileKind::SasData, supp: true },
            Role { kind: FileKind::Xpt, supp: false },
            Role { kind: FileKind::Xpt, supp: true },
            Role { kind: FileKind::SasLog, supp: false },
        ]
    } else {
        seq![
            Role { kind: FileKind::SasCode, supp: false },
            Role { kind: FileKind::SasData, supp: false },
            Role { kind: FileKind::Xpt, supp: false },
            Role { kind: FileKind::SasLog, supp: false },
        ]
    }
}

/// The chain of a domain's validation track before the QC stage: program,
/// dataset, the supplementary dataset where there is one, log.
pub open spec fn validation_roles(supp: bool) -> Seq<Role> {
    if supp {
        seq![
            Role { kind: FileKind::SasCode, supp: false },
            Role { kind: FileKind::SasData, supp: false },
            Role { kind: FileKind::SasData, supp: true },
            Role { kind: FileKind::SasLog, supp: false },
        ]
    } else {
        seq![
            Role { kind: FileKind::SasCode, supp: false },
            Role { kind: FileKind::SasData, supp: false },
            Role { kind: FileKind::SasLog, supp: false },
        ]
    }
}

/// What a domain's tracks are held against: the time of the newest raw
/// data. The size of a domain's program is not looked at.
pub open spec fn rules_of(latest_rawdata: u64) -> Rules {
    Rules { watermark: latest_rawdata, init_size: None }
}

/// The audited domain `name`.
pub open spec fn item_of(src: SourcesView, name: Seq<char>, supp: bool, latest_rawdata: u64)
    -> ItemView {
    let checked = validation(src, name, validation_roles(supp), rules_of(latest_rawdata), supp);
    ItemView {
        name,
        dev: production_group(src, name, production_roles(supp), rules_of(latest_rawdata)),
        qc: checked.group,
        qc_supp: checked.supp,
    }
}

/// The views of a catalog of domains: the name of each and whether it has
/// a supplementary domain.
pub open spec fn catalog_of(specs: Seq<(String, bool)>) -> Seq<(Seq<char>, bool)> {
    crate::sdtm::spec::catalog_view(specs)
}

/// The names of the QC reports whose verdicts the audit of the first
/// `upto` domains of a catalog reads: of each domain its report and, where
/// it has a supplementary domain, that domain's.
pub open spec fn reports_upto(specs: Seq<(Seq<char>, bool)>, upto: int) -> Seq<Seq<char>>
    decreases upto,
{
    if upto <= 0 || upto > specs.len() {
        Seq::empty()
    } else {
        reports_upto(specs, upto - 1) + report_names_of(specs[upto - 1].0, specs[upto - 1].1)
    }
}

/// The inspector of the SDTM domains of a study.
#[derive(Debug)]
pub struct Inspector {
    specs: Vec<(String, bool)>,
    paths: Paths,
    latest_rawdata: u64,
    sources: Sources,
}

/// The mathematical content of an [`Inspector`].
pub struct InspectorView {
    pub specs: Seq<(Seq<char>, bool)>,
    pub paths: PathsView,
    pub latest_rawdata: u64,
    pub sources: SourcesView,
}

impl View for Inspector {
    type V = InspectorView;

    closed spec fn view(&self) -> InspectorView {
        InspectorView {
            specs: catalog_of(self.specs@),
            paths: self.paths@,
            latest_rawdata: self.latest_rawdata,
            sources: self.sources@,
        }
    }
}

impl InspectorView {
    /// The audited domains, in the order of the catalog.
    pub open spec fn items(self) -> Seq<ItemView> {
        self.specs.map_values(
            |s: (Seq<char>, bool)| item_of(self.sources, s.0, s.1, self.latest_rawdata),
        )
    }
}

impl Inspector {
    /// An inspector for the domains of `specs`, from what was seen in the
    /// folders of the study.
    pub fn new(specs: Vec<(String, bool)>, paths: Paths, scan: Scan) -> (i: Inspector)
        ensures
            i@ == (InspectorView {
                specs: catalog_of(specs@),
                paths: paths@,
                latest_rawdata: watermark_of(scan),
                sources: sources_of(scan, true),
            }),
    {
        let latest_rawdata = latest_timestamp(&scan.upstream);
        Inspector { specs, paths, latest_rawdata, sources: Sources::new(scan, true) }
    }

    /// Audits every domain of the catalog.
    pub fn module(&self) -> (r: Result<Module, InspectError>)
        ensures
            r matches Ok(m) && m@ == self@.items(),
    {
        let mut m = Module::new();
        let mut n: usize = 0;
        while n < self.specs.len()
            invariant
                n <= self.specs.len(),
                m@ == self@.items().take(n as int),
            decreases self.specs.len() - n,
        {
            let name = self.specs[n].0.as_str();
            let supp = self.specs[n].1;
            let mut item = Item::new(name);
            let dev = match self.update_dev_status(name, supp) {
                Ok(dev) => dev,
                Err(e) => {
                    return Err(e);
                },
            };
            let (qc, qc_supp) = match self.update_qc_status(name, supp) {
                Ok(qc) => qc,
                Err(e) => {
                    return Err(e);
                },
            };
            item.set_dev(dev).set_qc(qc).set_qc_supp(qc_supp);
            m.set_item(item);
            proof {
                let all = self@.items();
                assert(all.take(n + 1) =~= all.take(n as int).push(all[n as int]));
            }
            n = n + 1;
        }
        proof {
            let all = self@.items();
            assert(all.take(self.specs.len() as int) =~= all);
        }
        Ok(m)
    }

    /// The chain of the production track.
    pub fn dev_roles(supp: bool) -> (roles: Vec<Role>)
        ensures
            roles@ == production_roles(supp),
    {
        let mut roles: Vec<Role> = Vec::new();
        roles.push(Role { kind: FileKind::SasCode, supp: false });
        roles.push(Role { kind: FileKind::SasData, supp: false });
        if supp {
            roles.push(Role { kind: FileKind::SasData, supp: true });
        }
        roles.push(Role { kind: FileKind::Xpt, supp: false });
        if supp {
            roles.push(Role { kind: FileKind::Xpt, supp: true });
        }
        roles.push(Role { kind: FileKind::SasLog, supp: false });
        proof {
            assert(roles@ =~= production_roles(supp));
        }
        roles
    }

    /// The chain of the validation track before the QC stage.
    pub fn qc_roles(supp: bool) -> (roles: Vec<Role>)
        ensures
            roles@ == validation_roles(supp),
    {
        let mut roles: Vec<Role> = Vec::new();
        roles.push(Role { kind: FileKind::SasCode, supp: false });
        roles.push(Role { kind: FileKind::SasData, supp: false });
        if supp {
            roles.push(Role { kind: FileKind::SasData, supp: true });
        }
        roles.push(Role { kind: FileKind::SasLog, supp: false });
        proof {
            assert(roles@ =~= validation_roles(supp));
        }
        roles
    }

    /// The group of the production track of a domain, audited.
    fn update_dev_status(&self, name: &str, supp: bool) -> (r: Result<Group, InspectError>)
        ensures
            r matches Ok(g) && g@ == production_group(
                self@.sources,
                name@,
                production_roles(supp),
                rules_of(self@.latest_rawdata),
            ),
    {
        let roles = Self::dev_roles(supp);
        let rules = Rules { watermark: self.latest_rawdata, init_size: None };
        self.sources.production(name, &roles, &rules)
    }

    /// The group of the validation track of a domain, audited, and the
    /// status that the supplementary QC report gives the track.
    fn update_qc_status(&self, name: &str, supp: bool) -> (r: Result<
        (Group, Option<GroupStatus>),
        InspectError,
    >)
        ensures
            r matches Ok(found) && found.0@ == validation(
                self@.sources,
                name@,
                validation_roles(supp),
                rules_of(self@.latest_rawdata),
                supp,
            ).group && found.1 == validation(
                self@.sources,
                name@,
                validation_roles(supp),
                rules_of(self@.latest_rawdata),
                supp,
            ).supp,
    {
        let roles = Self::qc_roles(supp);
        let rules = Rules { watermark: self.latest_rawdata, init_size: None };
        self.sources.validation(name, &roles, &rules, supp)
    }

    /// The snapshot of a program folder.
    pub fn program_files_map(listing: &Vec<Entry>) -> (s: Snapshot)
        ensures
            s@ == recorded(entries_of(listing@), program_extensions()),
    {
        program_files(listing)
    }

    /// The snapshot of a dataset folder.
    pub fn datasets_files_map(listing: &Vec<Entry>) -> (s: Snapshot)
        ensures
            s@ == recorded(entries_of(listing@), dataset_extensions()),
    {
        dataset_files(listing, true)
    }

    /// The snapshot of the folder of QC reports.
    pub fn qc_files_map(listing: &Vec<Entry>) -> (s: Snapshot)
        ensures
            s@ == recorded(entries_of(listing@), report_extensions()),
    {
        report_files(listing)
    }

    /// The file of a domain in a role on a track, as it was seen. Fails
    /// for a kind that the track does not keep.
    pub fn file(
        &self,
        domain: &str,
        file_kind: FileKind,
        group_kind: GroupKind,
        domain_kind: DomainKind,
    ) -> (r: Result<File, InspectError>)
        ensures
            r is Ok <==> keeps(group_kind, file_kind),
            r matches Ok(f) ==> f@ == observed(
                self@.sources,
                domain@,
                file_kind,
                group_kind,
                domain_kind == DomainKind::Supp,
            ),
            r matches Err(e) ==> e == InspectError::InvalidFileKind(group_kind),
    {
        self.sources.file(domain, file_kind, group_kind, domain_kind == DomainKind::Supp)
    }

    /// The status of a chain of files given in canonical order, and the
    /// files with their outcomes.
    pub fn update_status(&self, expect: &Vec<File>) -> (r: (GroupStatus, Vec<File>))
        ensures
            r.0 == chain_status(views_of(expect@), rules_of(self@.latest_rawdata)),
            views_of(r.1@) == chain_marks(views_of(expect@), rules_of(self@.latest_rawdata)),
    {
        let rules = Rules { watermark: self.latest_rawdata, init_size: None };
        audit_chain(expect, &rules)
    }

    /// When the raw data last changed.
    pub fn latest_rawdata(&self) -> (t: u64)
        ensures
            t == self@.latest_rawdata,
    {
        self.latest_rawdata
    }
}

/// The names of the QC reports whose verdicts the audit of a catalog
/// reads, in the order of the catalog.
pub fn judged_reports(specs: &Vec<(String, bool)>) -> (names: Vec<String>)
    ensures
        texts_of(names@) == reports_upto(catalog_of(specs@), specs.len() as int),
{
    let mut names: Vec<String> = Vec::new();
    let mut n: usize = 0;
    proof {
        assert(texts_of(names@) =~= Seq::empty());
    }
    while n < specs.len()
        invariant
            n <= specs.len(),
            texts_of(names@) == reports_upto(catalog_of(specs@), n as int),
        decreases specs.len() - n,
    {
        assert(catalog_of(specs@)[n as int] == (specs@[n as int].0@, specs@[n as int].1));
        add_report_names(&mut names, specs[n].0.as_str(), specs[n].1);
        n = n + 1;
    }
    names
}

} // verus!
