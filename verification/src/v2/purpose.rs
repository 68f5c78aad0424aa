//! The purposes for which a trial is analysed: the folders under the
//! trial's `stats`.

use vstd::prelude::*;

use crate::text::{concat3, parts_of, same, split_path, strings_of};
use crate::v2::error::Error;

verus! {

/// An entry of a folder.
#[derive(Debug, Clone)]
pub struct Entry {
    pub path: String,
    pub is_file: bool,
}

/// The mathematical content of an [`Entry`].
pub struct EntryView {
    pub path: Seq<char>,
    pub is_file: bool,
}

impl View for Entry {
    type V = EntryView;

    open spec fn view(&self) -> EntryView {
        EntryView { path: self.path@, is_file: self.is_file }
    }
}

/// The views of the entries of a folder.
pub open spec fn entries_of(list: Seq<Entry>) -> Seq<EntryView> {
    list.map_values(|e: Entry| e@)
}

/// A folder that was listed.
#[derive(Debug, Clone)]
pub struct Folder {
    pub path: String,
    pub entries: Vec<Entry>,
}

/// The mathematical content of a [`Folder`].
pub struct FolderView {
    pub path: Seq<char>,
    pub entries: Seq<EntryView>,
}

impl View for Folder {
    type V = FolderView;

    open spec fn view(&self) -> FolderView {
        FolderView { path: self.path@, entries: entries_of(self.entries@) }
    }
}

/// The views of the folders that were listed.
pub open spec fn folders_of(tree: Seq<Folder>) -> Seq<FolderView> {
    tree.map_values(|f: Folder| f@)
}

/// The entries of the first folder at `path` among those listed at or
/// after index `from`; `None` when no folder was listed there.
pub open spec fn entries_at(tree: Seq<FolderView>, path: Seq<char>, from: int) -> Option<
    Seq<EntryView>,
>
    decreases tree.len() - from,
{
    if from < 0 || from >= tree.len() {
        None
    } else if tree[from].path == path {
        Some(tree[from].entries)
    } else {
        entries_at(tree, path, from + 1)
    }
}

/// The entries of the folder at `path`, if it was listed.
pub fn list<'a>(tree: &'a Vec<Folder>, path: &str) -> (r: Option<&'a Vec<Entry>>)
    ensures
        r is Some <==> entries_at(folders_of(tree@), path@, 0) is Some,
        r matches Some(es) ==> Some(entries_of(es@)) == entries_at(folders_of(tree@), path@, 0),
{
    let mut i: usize = 0;
    while i < tree.len()
        invariant
            i <= tree.len(),
            entries_at(folders_of(tree@), path@, 0) == entries_at(folders_of(tree@), path@, i as int),
        decreases tree.len() - i,
    {
        assert(folders_of(tree@)[i as int] == tree@[i as int]@);
        if same(tree[i].path.as_str(), path) {
            return Some(&tree[i].entries);
        }
        i = i + 1;
    }
    None
}

/// The last part of a path, or the empty name for a path without parts.
pub open spec fn file_name_of(path: Seq<char>) -> Seq<char> {
    if parts_of(path).len() == 0 {
        Seq::empty()
    } else {
        parts_of(path).last()
    }
}

/// The last part of a path, or the empty name for a path without parts.
pub fn file_name(path: &str) -> (r: String)
    ensures
        r@ == file_name_of(path@),
{
    let parts = split_path(path);
    if parts.len() == 0 {
        String::new()
    } else {
        assert(strings_of(parts@).last() == parts@[parts.len() - 1]@);
        parts[parts.len() - 1].clone()
    }
}

/// The identifier of what lies under `parent` by the name `name`.
pub open spec fn id_of(parent: Seq<char>, name: Seq<char>) -> Seq<char> {
    parent + "-"@ + name
}

/// A purpose of analysis.
#[derive(Debug, Clone)]
pub struct Purpose {
    pub id: String,
    pub name: String,
}

/// The mathematical content of a [`Purpose`].
pub struct PurposeView {
    pub id: Seq<char>,
    pub name: Seq<char>,
}

impl View for Purpose {
    type V = PurposeView;

    open spec fn view(&self) -> PurposeView {
        PurposeView { id: self.id@, name: self.name@ }
    }
}

/// The views of a list of purposes.
pub open spec fn purposes_of(list: Seq<Purpose>) -> Seq<PurposeView> {
    list.map_values(|p: Purpose| p@)
}

/// The purpose that the folder `root` stands for, under the trial
/// `parent`.
pub open spec fn purpose_at(parent: Seq<char>, root: Seq<char>) -> PurposeView {
    PurposeView { id: id_of(parent, file_name_of(root)), name: file_name_of(root) }
}

/// The purposes that the entries up to `upto` stand for: one for each
/// entry that is no file.
pub open spec fn purposes_upto(parent: Seq<char>, entries: Seq<EntryView>, upto: int) -> Seq<
    PurposeView,
>
    decreases upto,
{
    if upto <= 0 || upto > entries.len() {
        Seq::empty()
    } else if entries[upto - 1].is_file {
        purposes_upto(parent, entries, upto - 1)
    } else {
        purposes_upto(parent, entries, upto - 1).push(purpose_at(parent, entries[upto - 1].path))
    }
}

/// The purposes under the folder `root`; none when there is no such
/// folder.
pub open spec fn purposes_in(tree: Seq<FolderView>, parent: Seq<char>, root: Seq<char>) -> Seq<
    PurposeView,
> {
    match entries_at(tree, root, 0) {
        None => Seq::empty(),
        Some(entries) => purposes_upto(parent, entries, entries.len() as int),
    }
}

/// The purposes under the folder `root` of the trial `parent`. A folder
/// that does not exist holds none.
pub fn list_purposes(parent: &str, root: &str, tree: &Vec<Folder>) -> (r: Result<Vec<Purpose>, Error>)
    ensures
        r matches Ok(list) && purposes_of(list@) == purposes_in(folders_of(tree@), parent@, root@),
{
    let mut purposes: Vec<Purpose> = Vec::new();
    proof {
        assert(purposes_of(purposes@) =~= Seq::empty());
    }
    let entries = match list(tree, root) {
        Some(entries) => entries,
        None => {
            return Ok(purposes);
        },
    };
    let mut i: usize = 0;
    while i < entries.len()
        invariant
            i <= entries.len(),
            purposes_of(purposes@) == purposes_upto(parent@, entries_of(entries@), i as int),
        decreases entries.len() - i,
    {
        let entry = &entries[i];
        assert(entries_of(entries@)[i as int] == entry@);
        if !entry.is_file {
            let ghost before = purposes_of(purposes@);
            match fetch_purpose(parent, entry.path.as_str()) {
                Ok(p) => {
                    purposes.push(p);
                    proof {
                        assert(purposes_of(purposes@) =~= before.push(
                            purpose_at(parent@, entry@.path),
                        ));
                    }
                },
                Err(e) => {
                    return Err(e);
                },
            }
        }
        i = i + 1;
    }
    Ok(purposes)
}

/// The purpose that the folder `root` stands for, under the trial
/// `parent`.
pub fn fetch_purpose(parent: &str, root: &str) -> (r: Result<Purpose, Error>)
    ensures
        r matches Ok(p) && p@ == purpose_at(parent@, root@),
{
    let purpose = file_name(root);
    let id = concat3(parent, "-", purpose.as_str());
    Ok(Purpose { id, name: purpose })
}

} // verus!
