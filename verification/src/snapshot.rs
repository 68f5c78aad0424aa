//! What was seen in a folder: the regular files by name, each with its size
//! and the time it was last modified.

use vstd::prelude::*;

use crate::qc::Verdict;
use crate::text::{ends_with, same};

verus! {

/// A regular file as listed in a folder.
#[derive(Debug, Clone)]
pub struct Entry {
    pub name: String,
    pub size: u64,
    pub modified_at: u64,
}

/// The mathematical content of an [`Entry`].
pub struct EntryView {
    pub name: Seq<char>,
    pub size: u64,
    pub modified_at: u64,
}

impl View for Entry {
    type V = EntryView;

    open spec fn view(&self) -> EntryView {
        EntryView { name: self.name@, size: self.size, modified_at: self.modified_at }
    }
}

/// The views of a listing.
pub open spec fn entries_of(listing: Seq<Entry>) -> Seq<EntryView> {
    listing.map_values(|e: Entry| e@)
}

/// The views of a list of strings.
pub open spec fn texts_of(list: Seq<String>) -> Seq<Seq<char>> {
    list.map_values(|s: String| s@)
}

/// Whether a file name ends with one of the given extensions.
pub open spec fn has_extension(name: Seq<char>, extensions: Seq<Seq<char>>) -> bool {
    exists|i: int| 0 <= i < extensions.len() && (#[trigger] extensions[i]).is_suffix_of(name)
}

/// What a listing records of the files with one of the given extensions:
/// size and time of modification by name. Of two entries with one name the
/// later one counts.
pub open spec fn recorded(listing: Seq<EntryView>, extensions: Seq<Seq<char>>) -> Map<
    Seq<char>,
    (u64, u64),
>
    decreases listing.len(),
{
    if listing.len() == 0 {
        Map::empty()
    } else {
        let before = recorded(listing.drop_last(), extensions);
        let e = listing.last();
        if has_extension(e.name, extensions) {
            before.insert(e.name, (e.size, e.modified_at))
        } else {
            before
        }
    }
}

/// A listing records a name exactly when it holds an entry of that name
/// with one of the extensions, and what it records of the name is the
/// size and time of such an entry.
pub proof fn lemma_recorded(listing: Seq<EntryView>, extensions: Seq<Seq<char>>, name: Seq<char>)
    ensures
        recorded(listing, extensions).contains_key(name) <==> has_extension(name, extensions)
            && exists|i: int| 0 <= i < listing.len() && (#[trigger] listing[i]).name == name,
        recorded(listing, extensions).contains_key(name) ==> exists|i: int|
            0 <= i < listing.len() && (#[trigger] listing[i]).name == name && recorded(
                listing,
                extensions,
            )[name] == (listing[i].size, listing[i].modified_at),
    decreases listing.len(),
{
    if listing.len() > 0 {
        let before = listing.drop_last();
        let e = listing.last();
        lemma_recorded(before, extensions, name);
        if recorded(before, extensions).contains_key(name) {
            let i = choose|i: int|
                0 <= i < before.len() && (#[trigger] before[i]).name == name && recorded(
                    before,
                    extensions,
                )[name] == (before[i].size, before[i].modified_at);
            assert(listing[i] == before[i]);
        }
        if e.name == name {
            assert(listing[listing.len() - 1].name == name);
        }
        if exists|i: int| 0 <= i < listing.len() && (#[trigger] listing[i]).name == name {
            let i = choose|i: int| 0 <= i < listing.len() && (#[trigger] listing[i]).name == name;
            if i < before.len() {
                assert(before[i] == listing[i]);
            }
        }
    }
}

/// The latest time of modification in a listing, 0 for an empty one.
pub open spec fn latest_in(listing: Seq<EntryView>) -> u64
    decreases listing.len(),
{
    if listing.len() == 0 {
        0
    } else {
        let before = latest_in(listing.drop_last());
        if listing.last().modified_at > before {
            listing.last().modified_at
        } else {
            before
        }
    }
}

/// The latest time in a listing is the time of one of its entries, and none
/// is later.
pub proof fn lemma_latest_in(listing: Seq<EntryView>)
    ensures
        forall|i: int| 0 <= i < listing.len() ==> (#[trigger] listing[i]).modified_at <= latest_in(listing),
        listing.len() == 0 ==> latest_in(listing) == 0,
        listing.len() > 0 ==> exists|i: int|
            0 <= i < listing.len() && (#[trigger] listing[i]).modified_at == latest_in(listing),
    decreases listing.len(),
{
    if listing.len() > 0 {
        let before = listing.drop_last();
        lemma_latest_in(before);
        assert forall|i: int| 0 <= i < listing.len() implies (#[trigger] listing[i]).modified_at
            <= latest_in(listing) by {
            if i < before.len() {
                assert(before[i] == listing[i]);
            }
        }
        if before.len() > 0 && listing.last().modified_at <= latest_in(before) {
            let i = choose|i: int|
                0 <= i < before.len() && (#[trigger] before[i]).modified_at == latest_in(before);
            assert(before[i] == listing[i]);
        } else {
            assert(listing[listing.len() - 1].modified_at == latest_in(listing));
        }
    }
}

/// The latest time at which a file of the listing was modified, 0 when the
/// listing is empty.
pub fn latest_timestamp(listing: &Vec<Entry>) -> (t: u64)
    ensures
        t == latest_in(entries_of(listing@)),
{
    let mut timestamp: u64 = 0;
    let mut i: usize = 0;
    while i < listing.len()
        invariant
            i <= listing.len(),
            timestamp == latest_in(entries_of(listing@).take(i as int)),
        decreases listing.len() - i,
    {
        proof {
            let all = entries_of(listing@);
            assert(all.take(i + 1).drop_last() =~= all.take(i as int));
        }
        if listing[i].modified_at > timestamp {
            timestamp = listing[i].modified_at;
        }
        i = i + 1;
    }
    proof {
        let all = entries_of(listing@);
        assert(all.take(listing.len() as int) =~= all);
    }
    timestamp
}

/// Whether `name` ends with one of the extensions.
pub fn with_extension(name: &str, extensions: &Vec<String>) -> (r: bool)
    ensures
        r == has_extension(name@, texts_of(extensions@)),
{
    let mut i: usize = 0;
    while i < extensions.len()
        invariant
            i <= extensions.len(),
            forall|j: int| 0 <= j < i ==> !(#[trigger] texts_of(extensions@)[j]).is_suffix_of(name@),
        decreases extensions.len() - i,
    {
        if ends_with(name, extensions[i].as_str()) {
            assert(texts_of(extensions@)[i as int].is_suffix_of(name@));
            return true;
        }
        i = i + 1;
    }
    false
}

/// The files seen in one folder.
#[derive(Debug, Clone)]
pub struct Snapshot {
    entries: Vec<Entry>,
}

impl View for Snapshot {
    type V = Map<Seq<char>, (u64, u64)>;

    closed spec fn view(&self) -> Map<Seq<char>, (u64, u64)> {
        recorded(entries_of(self.entries@), Seq::empty().push(Seq::empty()))
    }
}

/// Every name ends with the empty extension.
proof fn lemma_any_name(name: Seq<char>)
    ensures
        has_extension(name, Seq::empty().push(Seq::empty())),
{
    let all: Seq<Seq<char>> = Seq::empty().push(Seq::empty());
    assert(all[0].is_suffix_of(name)) by {
        assert(name.subrange(name.len() as int, name.len() as int) =~= all[0]);
    }
}

/// A listing restricted to some extensions records the same as the entries
/// with those extensions record without restriction.
proof fn lemma_recorded_kept(
    listing: Seq<EntryView>,
    kept: Seq<EntryView>,
    e: EntryView,
    extensions: Seq<Seq<char>>,
)
    requires
        recorded(kept, Seq::empty().push(Seq::empty())) == recorded(listing, extensions),
    ensures
        has_extension(e.name, extensions) ==> recorded(
            kept.push(e),
            Seq::empty().push(Seq::empty()),
        ) == recorded(listing.push(e), extensions),
        !has_extension(e.name, extensions) ==> recorded(kept, Seq::empty().push(Seq::empty()))
            == recorded(listing.push(e), extensions),
{
    lemma_any_name(e.name);
    assert(kept.push(e).drop_last() =~= kept);
    assert(listing.push(e).drop_last() =~= listing);
}

impl Snapshot {
    /// The snapshot of an empty folder.
    pub fn new() -> (s: Snapshot)
        ensures
            s@ == Map::<Seq<char>, (u64, u64)>::empty(),
    {
        Snapshot { entries: Vec::new() }
    }

    /// The snapshot of a folder from its listing, restricted to the files
    /// that end with one of the extensions.
    pub fn scan(listing: &Vec<Entry>, extensions: &Vec<String>) -> (s: Snapshot)
        ensures
            s@ == recorded(entries_of(listing@), texts_of(extensions@)),
    {
        let mut s = Snapshot::new();
        let mut i: usize = 0;
        while i < listing.len()
            invariant
                i <= listing.len(),
                s@ == recorded(entries_of(listing@).take(i as int), texts_of(extensions@)),
            decreases listing.len() - i,
        {
            let e = &listing[i];
            proof {
                let all = entries_of(listing@);
                assert(all.take(i + 1) =~= all.take(i as int).push(e@));
                lemma_recorded_kept(
                    all.take(i as int),
                    entries_of(s.entries@),
                    e@,
                    texts_of(extensions@),
                );
            }
            if with_extension(e.name.as_str(), extensions) {
                let ghost before = entries_of(s.entries@);
                s.entries.push(Entry { name: e.name.clone(), size: e.size, modified_at: e.modified_at });
                proof {
                    assert(entries_of(s.entries@) =~= before.push(e@));
                }
            }
            i = i + 1;
        }
        proof {
            let all = entries_of(listing@);
            assert(all.take(listing.len() as int) =~= all);
        }
        s
    }

    /// Records a file; an earlier record of the same name is replaced.
    pub fn insert(&mut self, name: &str, size: u64, modified_at: u64)
        ensures
            final(self)@ == old(self)@.insert(name@, (size, modified_at)),
    {
        let ghost before = entries_of(self.entries@);
        self.entries.push(Entry { name: name.to_owned(), size, modified_at });
        proof {
            let e = EntryView { name: name@, size, modified_at };
            lemma_any_name(name@);
            assert(entries_of(self.entries@) =~= before.push(e));
            assert(before.push(e).drop_last() =~= before);
        }
    }

    /// The size and time of modification recorded for a name, if any.
    pub fn get(&self, name: &str) -> (r: Option<(u64, u64)>)
        ensures
            r == (if self@.contains_key(name@) {
                Some(self@[name@])
            } else {
                None::<(u64, u64)>
            }),
    {
        let mut i: usize = self.entries.len();
        let ghost all = entries_of(self.entries@);
        let ghost any: Seq<Seq<char>> = Seq::empty().push(Seq::empty());
        proof {
            assert(all.take(i as int) =~= all);
        }
        while i > 0
            invariant
                i <= self.entries.len(),
                all == entries_of(self.entries@),
                any == Seq::<Seq<char>>::empty().push(Seq::empty()),
                recorded(all, any).contains_key(name@) == recorded(
                    all.take(i as int),
                    any,
                ).contains_key(name@),
                recorded(all, any).contains_key(name@) ==> recorded(all, any)[name@] == recorded(
                    all.take(i as int),
                    any,
                )[name@],
            decreases i,
        {
            let e = &self.entries[i - 1];
            proof {
                assert(all.take(i as int).drop_last() =~= all.take(i - 1));
                assert(all.take(i as int).last() == e@);
                lemma_any_name(e@.name);
            }
            if same(e.name.as_str(), name) {
                return Some((e.size, e.modified_at));
            }
            i = i - 1;
        }
        None
    }
}

/// What the report judge made of one QC report.
#[derive(Debug, Clone)]
pub struct Judgement {
    /// The report's file name.
    pub name: String,
    /// The verdict, or `None` when the judge could not read the report.
    pub verdict: Option<Verdict>,
}

/// Whether the first judgement of the report `name` is a match.
pub open spec fn is_matched(judgements: Seq<Judgement>, name: Seq<char>) -> bool
    decreases judgements.len(),
{
    if judgements.len() == 0 {
        false
    } else if judgements[0].name@ == name {
        judgements[0].verdict == Some(Verdict::Match)
    } else {
        is_matched(judgements.drop_first(), name)
    }
}

/// Whether the report `name` was judged to match. A report that was not
/// judged, or that the judge could not read, does not match.
pub fn matched(judgements: &Vec<Judgement>, name: &str) -> (r: bool)
    ensures
        r == is_matched(judgements@, name@),
{
    let mut i: usize = 0;
    proof {
        assert(judgements@.skip(0) =~= judgements@);
    }
    while i < judgements.len()
        invariant
            i <= judgements.len(),
            is_matched(judgements@, name@) == is_matched(judgements@.skip(i as int), name@),
        decreases judgements.len() - i,
    {
        proof {
            assert(judgements@.skip(i as int).drop_first() =~= judgements@.skip(i + 1));
        }
        if same(judgements[i].name.as_str(), name) {
            return match &judgements[i].verdict {
                Some(Verdict::Match) => true,
                _ => false,
            };
        }
        i = i + 1;
    }
    false
}

} // verus!
