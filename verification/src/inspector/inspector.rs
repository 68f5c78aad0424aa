//! The files found under a directory, each with its name, its extension
//! and the times of its creation and last modification.

use vstd::prelude::*;

use crate::order::{arranged, indices, sort_order, stable_order};
use crate::text::{chars_of, last_index_of, lemma_last_index_of, rfind, slice};

verus! {

/// A file that was found.
#[derive(Debug, Clone)]
pub struct File {
    pub directory: String,
    pub name: String,
    pub extention: String,
    pub created_at: u64,
    pub modified_at: u64,
}

/// The mathematical content of a [`File`].
pub struct FileView {
    pub directory: Seq<char>,
    pub name: Seq<char>,
    pub extention: Seq<char>,
    pub created_at: u64,
    pub modified_at: u64,
}

impl View for File {
    type V = FileView;

    open spec fn view(&self) -> FileView {
        FileView {
            directory: self.directory@,
            name: self.name@,
            extention: self.extention@,
            created_at: self.created_at,
            modified_at: self.modified_at,
        }
    }
}

/// The views of a list of files.
pub open spec fn files_of(list: Seq<File>) -> Seq<FileView> {
    list.map_values(|f: File| f@)
}

/// A regular file as a directory lists it: its name and the times of its
/// creation and last modification.
#[derive(Debug, Clone)]
pub struct Listed {
    pub file_name: String,
    pub created_at: u64,
    pub modified_at: u64,
}

/// The name of a file without its extension: what stands before its last
/// dot, or all of it when it has no dot.
pub open spec fn name_of(file_name: Seq<char>) -> Seq<char> {
    match last_index_of(file_name, '.', 0, file_name.len() - 1) {
        Some(p) => file_name.take(p),
        None => file_name,
    }
}

/// The extension of a file: what stands behind its last dot, or nothing
/// when it has no dot.
pub open spec fn extention_of(file_name: Seq<char>) -> Seq<char> {
    match last_index_of(file_name, '.', 0, file_name.len() - 1) {
        Some(p) => file_name.skip(p + 1),
        None => Seq::empty(),
    }
}

/// The file that stands for what a directory lists.
pub open spec fn collected(dir: Seq<char>, l: Listed) -> FileView {
    FileView {
        directory: dir,
        name: name_of(l.file_name@),
        extention: extention_of(l.file_name@),
        created_at: l.created_at,
        modified_at: l.modified_at,
    }
}

/// The key by which files are arranged newest first.
pub open spec fn age_of(f: FileView) -> u64 {
    (u64::MAX - f.modified_at) as u64
}

/// The files by the time they were last modified, newest first; files of
/// the same time keep their order.
pub open spec fn newest_first(files: Seq<FileView>) -> Seq<FileView> {
    arranged(files, stable_order(files.map_values(|f: FileView| age_of(f))))
}

/// The collector of the files of a directory tree.
#[derive(Debug, Clone)]
pub struct Inspector {
    files: Vec<File>,
}

impl View for Inspector {
    type V = Seq<FileView>;

    closed spec fn view(&self) -> Seq<FileView> {
        files_of(self.files@)
    }
}

impl Inspector {
    /// A collector that holds no file yet.
    pub fn new() -> (r: Inspector)
        ensures
            r@ == Seq::<FileView>::empty(),
    {
        let r = Inspector { files: Vec::new() };
        proof {
            assert(r@ =~= Seq::<FileView>::empty());
        }
        r
    }

    /// Adds the regular files that the directory `dir` lists, in their
    /// order, behind the files collected so far.
    pub fn collect(&mut self, dir: &str, listing: &Vec<Listed>)
        ensures
            final(self)@ == old(self)@ + listing@.map_values(|l: Listed| collected(dir@, l)),
    {
        let mut i: usize = 0;
        proof {
            assert(self@ =~= old(self)@ + listing@.map_values(|l: Listed| collected(dir@, l)).take(0));
        }
        while i < listing.len()
            invariant
                i <= listing.len(),
                self@ == old(self)@ + listing@.map_values(|l: Listed| collected(dir@, l)).take(
                    i as int,
                ),
            decreases listing.len() - i,
        {
            let (name, extention) = split_filename(listing[i].file_name.as_str());
            let ghost before = self@;
            self.files.push(
                File {
                    directory: dir.to_owned(),
                    name,
                    extention,
                    created_at: listing[i].created_at,
                    modified_at: listing[i].modified_at,
                },
            );
            proof {
                let all = listing@.map_values(|l: Listed| collected(dir@, l));
                assert(self@ =~= before.push(all[i as int]));
                assert(all.take(i + 1) =~= all.take(i as int).push(all[i as int]));
                assert(old(self)@ + all.take(i + 1) =~= (old(self)@ + all.take(i as int)).push(
                    all[i as int],
                ));
            }
            i = i + 1;
        }
        proof {
            let all = listing@.map_values(|l: Listed| collected(dir@, l));
            assert(all.take(listing.len() as int) =~= all);
        }
    }

    /// Arranges the collected files newest first and returns them.
    pub fn status(&mut self) -> (r: &Vec<File>)
        ensures
            final(self)@ == newest_first(old(self)@),
            files_of(r@) == newest_first(old(self)@),
    {
        let mut keys: Vec<u64> = Vec::new();
        let mut k: usize = 0;
        let ghost ages = self@.map_values(|f: FileView| age_of(f));
        while k < self.files.len()
            invariant
                k <= self.files.len(),
                ages == self@.map_values(|f: FileView| age_of(f)),
                keys@ == ages.take(k as int),
            decreases self.files.len() - k,
        {
            keys.push(u64::MAX - self.files[k].modified_at);
            proof {
                assert(ages.take(k + 1) =~= ages.take(k as int).push(ages[k as int]));
            }
            k = k + 1;
        }
        proof {
            assert(ages.take(self.files.len() as int) =~= ages);
        }
        let order = sort_order(&keys);
        let mut sorted: Vec<File> = Vec::new();
        let mut i: usize = 0;
        while i < order.len()
            invariant
                i <= order.len(),
                order.len() == self.files.len(),
                forall|j: int| 0 <= j < order.len() ==> order@[j] < self.files.len(),
                indices(order@) == stable_order(ages),
                ages == self@.map_values(|f: FileView| age_of(f)),
                files_of(sorted@) == newest_first(self@).take(i as int),
            decreases order.len() - i,
        {
            let ghost before = files_of(sorted@);
            let f = &self.files[order[i]];
            sorted.push(
                File {
                    directory: f.directory.clone(),
                    name: f.name.clone(),
                    extention: f.extention.clone(),
                    created_at: f.created_at,
                    modified_at: f.modified_at,
                },
            );
            proof {
                let all = newest_first(self@);
                assert(indices(order@)[i as int] == order@[i as int]);
                assert(files_of(sorted@) =~= before.push(all[i as int]));
                assert(all.take(i + 1) =~= all.take(i as int).push(all[i as int]));
            }
            i = i + 1;
        }
        proof {
            let all = newest_first(self@);
            assert(all.take(order.len() as int) =~= all);
        }
        self.files = sorted;
        &self.files
    }
}

/// Parts a file name at its last dot into name and extension.
pub fn split_filename(name: &str) -> (r: (String, String))
    ensures
        r.0@ == name_of(name@),
        r.1@ == extention_of(name@),
{
    let chars = chars_of(name);
    match rfind(&chars, '.', 0) {
        Some(p) => {
            proof {
                lemma_last_index_of(name@, '.', 0, name@.len() - 1);
            }
            (slice(name, 0, p), slice(name, p + 1, chars.len()))
        },
        None => (name.to_owned(), String::new()),
    }
}

} // verus!
