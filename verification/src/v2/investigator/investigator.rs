//! The investigator of one project: it knows the project's root and what
//! was seen of the files under it.

use vstd::prelude::*;

use crate::text::{join_path, joined};

verus! {

/// A point in time: seconds since the beginning of 1970 and the
/// nanoseconds behind them.
#[derive(Debug, Clone, Copy, PartialEq, Eq, Structural)]
pub struct Timestamp {
    pub secs: i64,
    pub nanos: u32,
}

impl Timestamp {
    /// Whether this point in time is not before `other`.
    pub open spec fn not_before(self, other: Timestamp) -> bool {
        self.secs > other.secs || (self.secs == other.secs && self.nanos >= other.nanos)
    }

    /// Whether this point in time is not before `other`.
    pub fn ge(&self, other: &Timestamp) -> (r: bool)
        ensures
            r == self.not_before(*other),
    {
        self.secs > other.secs || (self.secs == other.secs && self.nanos >= other.nanos)
    }
}

/// What the file system says of a file that exists: when it was created
/// and when it was last modified, each as seconds and nanoseconds since
/// the beginning of 1970.
#[derive(Debug, Clone)]
pub struct Seen {
    pub filepath: String,
    pub created_secs: u64,
    pub created_nanos: u32,
    pub modified_secs: u64,
    pub modified_nanos: u32,
}

/// The mathematical content of a [`Seen`].
pub struct SeenView {
    pub filepath: Seq<char>,
    pub created_secs: u64,
    pub created_nanos: u32,
    pub modified_secs: u64,
    pub modified_nanos: u32,
}

impl View for Seen {
    type V = SeenView;

    open spec fn view(&self) -> SeenView {
        SeenView {
            filepath: self.filepath@,
            created_secs: self.created_secs,
            created_nanos: self.created_nanos,
            modified_secs: self.modified_secs,
            modified_nanos: self.modified_nanos,
        }
    }
}

/// The views of what was seen.
pub open spec fn seen_of(list: Seq<Seen>) -> Seq<SeenView> {
    list.map_values(|s: Seen| s@)
}

/// The project that is looked into.
#[derive(Debug, Clone)]
pub struct InvestigatorParam {
    pub product: String,
    pub trial: String,
    pub purpose: String,
    pub root: String,
}

/// The investigator of one project.
#[derive(Debug, Clone)]
pub struct Investigator {
    product: String,
    trial: String,
    purpose: String,
    root: String,
    seen: Vec<Seen>,
}

/// The mathematical content of an [`Investigator`].
pub struct InvestigatorView {
    pub product: Seq<char>,
    pub trial: Seq<char>,
    pub purpose: Seq<char>,
    pub root: Seq<char>,
    pub seen: Seq<SeenView>,
}

impl View for Investigator {
    type V = InvestigatorView;

    closed spec fn view(&self) -> InvestigatorView {
        InvestigatorView {
            product: self.product@,
            trial: self.trial@,
            purpose: self.purpose@,
            root: self.root@,
            seen: seen_of(self.seen@),
        }
    }
}

impl InvestigatorView {
    /// The root of the project: product, trial, `stats` and purpose below
    /// the root of the studies.
    pub open spec fn project_root(self) -> Seq<char> {
        joined(joined(joined(joined(self.root, self.product), self.trial), "stats"@), self.purpose)
    }
}

impl Investigator {
    /// The investigator of the project that `param` names, with what was
    /// seen of the project's files.
    pub open spec fn spec_with(param: InvestigatorParam, seen: Seq<Seen>) -> InvestigatorView {
        InvestigatorView {
            product: param.product@,
            trial: param.trial@,
            purpose: param.purpose@,
            root: param.root@,
            seen: seen_of(seen),
        }
    }

    /// The investigator of a project, before anything was seen.
    pub fn new(param: &InvestigatorParam) -> (r: Investigator)
        ensures
            r@ == (InvestigatorView {
                product: param.product@,
                trial: param.trial@,
                purpose: param.purpose@,
                root: param.root@,
                seen: Seq::empty(),
            }),
    {
        let r = Investigator {
            product: param.product.clone(),
            trial: param.trial.clone(),
            purpose: param.purpose.clone(),
            root: param.root.clone(),
            seen: Vec::new(),
        };
        proof {
            assert(seen_of(r.seen@) =~= Seq::empty());
        }
        r
    }

    /// This investigator with what was seen of the project's files.
    pub fn with_seen(self, seen: Vec<Seen>) -> (r: Investigator)
        ensures
            r@ == (InvestigatorView { seen: seen_of(seen@), ..self@ }),
    {
        Investigator {
            product: self.product,
            trial: self.trial,
            purpose: self.purpose,
            root: self.root,
            seen,
        }
    }

    /// The root of the project.
    pub fn root(&self) -> (r: String)
        ensures
            r@ == self@.project_root(),
    {
        let product = join_path(self.root.as_str(), self.product.as_str());
        let trial = join_path(product.as_str(), self.trial.as_str());
        let stats = join_path(trial.as_str(), "stats");
        join_path(stats.as_str(), self.purpose.as_str())
    }

    /// What was seen of the project's files.
    pub fn seen(&self) -> (r: &Vec<Seen>)
        ensures
            seen_of(r@) == self@.seen,
    {
        &self.seen
    }
}

/// A file that was found.
#[derive(Debug, Clone)]
pub struct File {
    pub name: String,
    pub filepath: String,
    pub created_at: Timestamp,
    pub modified_at: Timestamp,
}

/// The mathematical content of a [`File`].
pub struct Found {
    pub name: Seq<char>,
    pub filepath: Seq<char>,
    pub created_at: Timestamp,
    pub modified_at: Timestamp,
}

impl View for File {
    type V = Found;

    open spec fn view(&self) -> Found {
        Found {
            name: self.name@,
            filepath: self.filepath@,
            created_at: self.created_at,
            modified_at: self.modified_at,
        }
    }
}

/// The view of a file that may not have been found.
pub open spec fn found_of(f: Option<File>) -> Option<Found> {
    match f {
        Some(f) => Some(f@),
        None => None,
    }
}

impl File {
    /// A copy of this file.
    pub fn duplicate(&self) -> (f: File)
        ensures
            f@ == self@,
    {
        File {
            name: self.name.clone(),
            filepath: self.filepath.clone(),
            created_at: self.created_at,
            modified_at: self.modified_at,
        }
    }
}

} // verus!
