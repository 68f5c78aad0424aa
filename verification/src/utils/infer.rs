//! From the directory of a project to the places of its catalogs.
//!
//! A project lies four levels below the folder `Studies`: product, trial,
//! `stats`, purpose. The specifications of a study lie under the trial's
//! `documents\specs`, the table of planned outputs under the project's
//! `utility`.

use vstd::prelude::*;

use crate::error::InspectError;
use crate::text::{
    chars_of, concat, contains, ends_with, find_inner, first_inner_occurrence, join_path, joined,
    occurs_in, parts_of, slice, split_path, strings_of, uppercase,
};

verus! {

/// The folder under which all studies lie, with the separator behind it.
pub const STUDIES: &'static str = "Studies\\";

/// The extension of a catalog.
pub const CATALOG_EXTENSION: &'static str = ".xlsx";

/// The least number of levels between `Studies` and a project.
pub const AT_LEAST_SIZE: usize = 4;

/// The kind of a catalog.
#[derive(Debug, Clone, Copy, PartialEq, Eq, Structural)]
pub enum ConfigFileKind {
    SDTM,
    ADAM,
    TOP,
}

/// What the name of a catalog of a kind holds, in upper case.
pub open spec fn mark_of(kind: ConfigFileKind) -> Seq<char> {
    match kind {
        ConfigFileKind::SDTM => "SDTM"@,
        ConfigFileKind::ADAM => "ADAM"@,
        ConfigFileKind::TOP => "TOP"@,
    }
}

/// Whether the file `name`, written `upper` in upper case, is a catalog of
/// a kind: its name holds the mark of the kind and ends as a workbook's.
pub open spec fn named_catalog(upper: Seq<char>, name: Seq<char>, kind: ConfigFileKind) -> bool {
    occurs_in(mark_of(kind), upper) && CATALOG_EXTENSION@.is_suffix_of(name)
}

/// Whether a file of a name is a catalog of a kind.
pub open spec fn is_catalog(name: Seq<char>, kind: ConfigFileKind) -> bool {
    named_catalog(uppercase(name), name, kind)
}

/// Whether the file `name`, written `upper` in upper case, is a catalog of
/// a kind.
pub fn is_catalog_name(upper: &str, name: &str, kind: ConfigFileKind) -> (r: bool)
    ensures
        r == named_catalog(upper@, name@, kind),
{
    let filter_str = match kind {
        ConfigFileKind::SDTM => "SDTM",
        ConfigFileKind::ADAM => "ADAM",
        ConfigFileKind::TOP => "TOP",
    };
    contains(upper, filter_str) && ends_with(name, CATALOG_EXTENSION)
}

/// The first `n` parts joined by `\`, behind `prefix`.
pub open spec fn below(prefix: Seq<char>, parts: Seq<Seq<char>>, n: int) -> Seq<char>
    decreases n,
{
    if n <= 0 {
        prefix
    } else if n == 1 {
        prefix + parts[0]
    } else {
        below(prefix, parts, n - 1) + seq!['\\'] + parts[n - 1]
    }
}

/// The directories of a study and of one of its projects.
pub struct Inferred {
    pub study: Seq<char>,
    pub project: Seq<char>,
}

/// What a path says of the project it leads to: the path up to and with
/// the first `Studies\`, then two levels for the study and four for the
/// project. `None` when the path does not hold `Studies\` with four levels
/// behind it.
pub open spec fn inferred(p: Seq<char>) -> Option<Inferred> {
    match first_inner_occurrence(STUDIES@, p, 0) {
        None => None,
        Some(at) => {
            let cutter = at + STUDIES@.len();
            let prefix = p.take(cutter);
            let tail = parts_of(p.skip(cutter));
            if tail.len() < AT_LEAST_SIZE {
                None
            } else {
                Some(
                    Inferred { study: below(prefix, tail, 2), project: below(prefix, tail, 4) },
                )
            }
        },
    }
}

/// The catalogs of a kind among the files `names` of the folder `dir`,
/// each by its full path, in the order of `names`.
pub open spec fn catalogs_in(dir: Seq<char>, names: Seq<Seq<char>>, kind: ConfigFileKind) -> Seq<
    Seq<char>,
>
    decreases names.len(),
{
    if names.len() == 0 {
        Seq::empty()
    } else {
        let before = catalogs_in(dir, names.drop_last(), kind);
        if is_catalog(names.last(), kind) {
            before.push(joined(dir, names.last()))
        } else {
            before
        }
    }
}

/// The directories of a study and of one of its projects.
#[derive(Debug, Clone)]
pub struct ProjectDirInfer {
    study: String,
    project: String,
}

impl View for ProjectDirInfer {
    type V = Inferred;

    closed spec fn view(&self) -> Inferred {
        Inferred { study: self.study@, project: self.project@ }
    }
}

/// The root of a project and the catalogs of one kind that were found for
/// it.
#[derive(Debug, Clone)]
pub struct InferResult {
    pub root: String,
    pub config: Vec<String>,
}

/// The mathematical content of an [`InferResult`].
pub struct InferResultView {
    pub root: Seq<char>,
    pub config: Seq<Seq<char>>,
}

impl View for InferResult {
    type V = InferResultView;

    open spec fn view(&self) -> InferResultView {
        InferResultView { root: self.root@, config: strings_of(self.config@) }
    }
}

/// The first `n` parts joined by `\`, behind `prefix`.
fn join_below(prefix: &str, parts: &Vec<String>, n: usize) -> (r: String)
    requires
        n <= parts.len(),
    ensures
        r@ == below(prefix@, strings_of(parts@), n as int),
{
    let mut r = prefix.to_owned();
    let mut k: usize = 0;
    while k < n
        invariant
            k <= n <= parts.len(),
            r@ == below(prefix@, strings_of(parts@), k as int),
        decreases n - k,
    {
        if k > 0 {
            proof {
                reveal_strlit("\\");
                assert("\\"@ =~= seq!['\\']);
            }
            r = concat(r.as_str(), "\\");
        }
        r = concat(r.as_str(), parts[k].as_str());
        k = k + 1;
    }
    r
}

impl ProjectDirInfer {
    /// Infers the directories of the study and of the project from a path
    /// that leads to the project or below it. Fails when the path does
    /// not hold `Studies\` with four levels behind it. Whether the
    /// directories exist is for `confirmed` to say.
    pub fn new(p: &str) -> (r: Result<ProjectDirInfer, InspectError>)
        ensures
            r is Ok <==> inferred(p@) is Some,
            r matches Ok(i) ==> Some(i@) == inferred(p@),
            r matches Err(e) ==> e == InspectError::InvalidProjectDir,
    {
        let chars = chars_of(p);
        let target = chars_of(STUDIES);
        let at = match find_inner(&chars, &target) {
            Some(at) => at,
            None => {
                return Err(InspectError::InvalidProjectDir);
            },
        };
        let cutter = at + target.len();
        let prefix = slice(p, 0, cutter);
        let rest = slice(p, cutter, chars.len());
        let tail = split_path(rest.as_str());
        if tail.len() < AT_LEAST_SIZE {
            return Err(InspectError::InvalidProjectDir);
        }
        let study = join_below(prefix.as_str(), &tail, 2);
        let project = join_below(prefix.as_str(), &tail, AT_LEAST_SIZE);
        Ok(ProjectDirInfer { study, project })
    }

    /// These directories, once it is known whether they exist. Fails
    /// with `InvalidDir` unless both the directory of the study and that
    /// of the project exist.
    pub fn confirmed(self, study_exists: bool, project_exists: bool) -> (r: Result<
        ProjectDirInfer,
        InspectError,
    >)
        ensures
            r is Ok <==> study_exists && project_exists,
            r matches Ok(i) ==> i@ == self@,
            r matches Err(e) ==> e == InspectError::InvalidDir,
    {
        if !(study_exists && project_exists) {
            return Err(InspectError::InvalidDir);
        }
        Ok(self)
    }

    /// The root of the project with the SDTM specifications among the
    /// files `names` of the folder of specifications.
    pub fn sdtm(&self, names: &Vec<String>) -> (r: Result<InferResult, InspectError>)
        ensures
            r matches Ok(found) && found@ == (InferResultView {
                root: self@.project,
                config: catalogs_in(self.spec_specs(), strings_of(names@), ConfigFileKind::SDTM),
            }),
    {
        Ok(InferResult { root: self.root(), config: self.filter_files(ConfigFileKind::SDTM, names) })
    }

    /// The root of the project with the ADaM specifications among the
    /// files `names` of the folder of specifications.
    pub fn adam(&self, names: &Vec<String>) -> (r: Result<InferResult, InspectError>)
        ensures
            r matches Ok(found) && found@ == (InferResultView {
                root: self@.project,
                config: catalogs_in(self.spec_specs(), strings_of(names@), ConfigFileKind::ADAM),
            }),
    {
        Ok(InferResult { root: self.root(), config: self.filter_files(ConfigFileKind::ADAM, names) })
    }

    /// The root of the project with the tables of planned outputs among
    /// the files `names` of the project's folder `utility`.
    pub fn tfl(&self, names: &Vec<String>) -> (r: Result<InferResult, InspectError>)
        ensures
            r matches Ok(found) && found@ == (InferResultView {
                root: self@.project,
                config: catalogs_in(self.spec_utility(), strings_of(names@), ConfigFileKind::TOP),
            }),
    {
        Ok(InferResult { root: self.root(), config: self.filter_files(ConfigFileKind::TOP, names) })
    }

    /// The directory of the project.
    pub fn root(&self) -> (r: String)
        ensures
            r@ == self@.project,
    {
        self.project.clone()
    }

    /// The directory of the study.
    pub fn study(&self) -> (r: String)
        ensures
            r@ == self@.study,
    {
        self.study.clone()
    }

    /// The folder of the study's documents.
    pub open spec fn spec_documents(&self) -> Seq<char> {
        joined(self@.study, "documents"@)
    }

    /// The folder of the study's specifications.
    pub open spec fn spec_specs(&self) -> Seq<char> {
        joined(self.spec_documents(), "specs"@)
    }

    /// The folder of the project's utilities.
    pub open spec fn spec_utility(&self) -> Seq<char> {
        joined(self@.project, "utility"@)
    }

    /// The folder in which the catalogs of a kind lie.
    pub open spec fn spec_catalog_dir(&self, kind: ConfigFileKind) -> Seq<char> {
        match kind {
            ConfigFileKind::TOP => self.spec_utility(),
            _ => self.spec_specs(),
        }
    }

    /// The folder of the study's documents.
    pub fn documents(&self) -> (r: String)
        ensures
            r@ == self.spec_documents(),
    {
        join_path(self.study.as_str(), "documents")
    }

    /// The folder of the study's specifications.
    pub fn specs(&self) -> (r: String)
        ensures
            r@ == self.spec_specs(),
    {
        join_path(self.documents().as_str(), "specs")
    }

    /// The folder of the project's utilities.
    pub fn utility(&self) -> (r: String)
        ensures
            r@ == self.spec_utility(),
    {
        join_path(self.root().as_str(), "utility")
    }

    /// The catalogs of a kind among the files `names` of the folder in
    /// which catalogs of that kind lie, each by its full path.
    pub fn filter_files(&self, kind: ConfigFileKind, names: &Vec<String>) -> (targets: Vec<String>)
        ensures
            strings_of(targets@) == catalogs_in(
                self.spec_catalog_dir(kind),
                strings_of(names@),
                kind,
            ),
    {
        let dir = match kind {
            ConfigFileKind::SDTM | ConfigFileKind::ADAM => self.specs(),
            ConfigFileKind::TOP => self.utility(),
        };
        let mut targets: Vec<String> = Vec::new();
        let mut i: usize = 0;
        proof {
            assert(strings_of(targets@) =~= Seq::empty());
        }
        while i < names.len()
            invariant
                i <= names.len(),
                dir@ == self.spec_catalog_dir(kind),
                strings_of(targets@) == catalogs_in(dir@, strings_of(names@).take(i as int), kind),
            decreases names.len() - i,
        {
            let name = names[i].as_str();
            proof {
                let all = strings_of(names@);
                assert(all.take(i + 1).drop_last() =~= all.take(i as int));
            }
            if is_catalog_name(name.to_uppercase().as_str(), name, kind) {
                let ghost before = strings_of(targets@);
                targets.push(join_path(dir.as_str(), name));
                proof {
                    assert(strings_of(targets@) =~= before.push(joined(dir@, name@)));
                }
            }
            i = i + 1;
        }
        proof {
            let all = strings_of(names@);
            assert(all.take(names.len() as int) =~= all);
        }
        targets
    }
}

} // verus!
