//! The trials of a product: the folders under the product's folder.

use vstd::prelude::*;

use crate::text::{concat3, join_path, joined};
use crate::v2::error::{Error, ErrorView};
use crate::v2::purpose::{
    entries_at, entries_of, file_name, file_name_of, folders_of, id_of, list, list_purposes,
    purposes_in, purposes_of, EntryView, Folder, FolderView, Purpose, PurposeView,
};

verus! {

/// A trial with the purposes for which it is analysed.
#[derive(Debug, Clone)]
pub struct Trial {
    pub id: String,
    pub name: String,
    pub purposes: Vec<Purpose>,
}

/// The mathematical content of a [`Trial`].
pub struct TrialView {
    pub id: Seq<char>,
    pub name: Seq<char>,
    pub purposes: Seq<PurposeView>,
}

impl View for Trial {
    type V = TrialView;

    open spec fn view(&self) -> TrialView {
        TrialView { id: self.id@, name: self.name@, purposes: purposes_of(self.purposes@) }
    }
}

/// The views of a list of trials.
pub open spec fn trials_of(list: Seq<Trial>) -> Seq<TrialView> {
    list.map_values(|t: Trial| t@)
}

/// The trial that the folder `root` stands for, under the product
/// `parent`: its purposes are the folders under its `stats`.
pub open spec fn trial_at(tree: Seq<FolderView>, parent: Seq<char>, root: Seq<char>) -> TrialView {
    let id = id_of(parent, file_name_of(root));
    TrialView { id, name: file_name_of(root), purposes: purposes_in(tree, id, joined(root, "stats"@)) }
}

/// The trials that the entries up to `upto` stand for: one for each entry
/// that is no file.
pub open spec fn trials_upto(
    tree: Seq<FolderView>,
    parent: Seq<char>,
    entries: Seq<EntryView>,
    upto: int,
) -> Seq<TrialView>
    decreases upto,
{
    if upto <= 0 || upto > entries.len() {
        Seq::empty()
    } else if entries[upto - 1].is_file {
        trials_upto(tree, parent, entries, upto - 1)
    } else {
        trials_upto(tree, parent, entries, upto - 1).push(
            trial_at(tree, parent, entries[upto - 1].path),
        )
    }
}

/// The trials under the folder `root`; `None` when the folder was not
/// listed.
pub open spec fn trials_in(tree: Seq<FolderView>, parent: Seq<char>, root: Seq<char>) -> Option<
    Seq<TrialView>,
> {
    match entries_at(tree, root, 0) {
        None => None,
        Some(entries) => Some(trials_upto(tree, parent, entries, entries.len() as int)),
    }
}

/// The trials under the folder `root` of the product `parent`. Fails with
/// `ListProjectFailed` when the folder was not listed.
pub fn list_trials(parent: &str, root: &str, tree: &Vec<Folder>) -> (r: Result<Vec<Trial>, Error>)
    ensures
        r is Ok <==> trials_in(folders_of(tree@), parent@, root@) is Some,
        r matches Ok(list) ==> Some(trials_of(list@)) == trials_in(
            folders_of(tree@),
            parent@,
            root@,
        ),
        r matches Err(e) ==> e@ == ErrorView::ListProjectFailed,
{
    let mut trials: Vec<Trial> = Vec::new();
    proof {
        assert(trials_of(trials@) =~= Seq::empty());
    }
    let entries = match list(tree, root) {
        Some(entries) => entries,
        None => {
            return Err(Error::ListProjectFailed);
        },
    };
    let mut i: usize = 0;
    while i < entries.len()
        invariant
            i <= entries.len(),
            trials_of(trials@) == trials_upto(
                folders_of(tree@),
                parent@,
                entries_of(entries@),
                i as int,
            ),
        decreases entries.len() - i,
    {
        let entry = &entries[i];
        assert(entries_of(entries@)[i as int] == entry@);
        if !entry.is_file {
            let ghost before = trials_of(trials@);
            match fetch_trial(parent, entry.path.as_str(), tree) {
                Ok(t) => {
                    trials.push(t);
                    proof {
                        assert(trials_of(trials@) =~= before.push(
                            trial_at(folders_of(tree@), parent@, entry@.path),
                        ));
                    }
                },
                Err(e) => {
                    return Err(e);
                },
            }
        }
        i = i + 1;
    }
    Ok(trials)
}

/// The trial that the folder `root` stands for, under the product
/// `parent`.
pub fn fetch_trial(parent: &str, root: &str, tree: &Vec<Folder>) -> (r: Result<Trial, Error>)
    ensures
        r matches Ok(t) && t@ == trial_at(folders_of(tree@), parent@, root@),
{
    let trial = file_name(root);
    let id = concat3(parent, "-", trial.as_str());
    let stats = join_path(root, "stats");
    let purposes = match list_purposes(id.as_str(), stats.as_str(), tree) {
        Ok(purposes) => purposes,
        Err(e) => {
            return Err(e);
        },
    };
    Ok(Trial { id, name: trial, purposes })
}

} // verus!
