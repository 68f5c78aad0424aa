//! The chain status algorithm.
//!
//! A track's files are given in their canonical order: the order in which
//! they are meant to be produced. The algorithm arranges them by the time
//! they were last modified, files that were not found last, and walks that
//! arrangement. The walk stops at the first file that is not found, whose
//! program was never edited, that is older than the upstream input, or that
//! stands where the canonical order expects another file. The files from
//! there on are marked unexpected, and the reason for the stop is the
//! track's status.

use vstd::prelude::*;

use crate::module::file::{views_of, File, FileKind, FileStatus, FileView};
use crate::module::group::GroupStatus;
use crate::order::{
    comes_before, indices, is_stable_order, lemma_ascending_keys_stay, lemma_stable_order,
    sort_order, stable_order,
};

verus! {

/// What a track is held against.
#[derive(Debug, Clone, Copy)]
pub struct Rules {
    /// When the upstream input last changed.
    pub watermark: u64,
    /// The size up to which a program counts as an untouched template; `None`
    /// where the size of the program is not looked at.
    pub init_size: Option<u64>,
}

/// The time by which a file is arranged: when it was last modified, or the
/// end of time when it was not found.
pub open spec fn sort_key(f: FileView) -> u64 {
    if f.is_missing() {
        u64::MAX
    } else {
        f.modified_at
    }
}

/// The times by which the files are arranged.
pub open spec fn sort_keys(files: Seq<FileView>) -> Seq<u64> {
    files.map_values(|f: FileView| sort_key(f))
}

/// The files' indices, oldest first, files that were not found last; files
/// of the same time keep their canonical order.
pub open spec fn time_order(files: Seq<FileView>) -> Seq<int> {
    stable_order(sort_keys(files))
}

/// Whether a file is a program that nobody has edited yet.
pub open spec fn not_started(f: FileView, rules: Rules) -> bool {
    f.kind == FileKind::SasCode && rules.init_size is Some && f.size <= rules.init_size->0
}

/// Whether a file is older than the upstream input. A program never is.
pub open spec fn stale(f: FileView, rules: Rules) -> bool {
    f.kind != FileKind::SasCode && f.modified_at < rules.watermark
}

/// What is wrong with the file at place `i` of the arrangement `order`, or
/// `None` when nothing is.
pub open spec fn finding(files: Seq<FileView>, rules: Rules, order: Seq<int>, i: int) -> Option<
    GroupStatus,
> {
    let f = files[order[i]];
    if f.is_missing() {
        Some(GroupStatus::Building)
    } else if not_started(f, rules) {
        Some(GroupStatus::NotStart)
    } else if stale(f, rules) {
        Some(GroupStatus::Changed)
    } else if !f.equal(files[i]) {
        Some(GroupStatus::Unexpected)
    } else {
        None
    }
}

/// The first place at or after `from` with a finding, or the number of files
/// when there is none.
pub open spec fn first_stop(files: Seq<FileView>, rules: Rules, order: Seq<int>, from: int) -> int
    decreases files.len() - from,
{
    if from >= files.len() {
        files.len() as int
    } else if finding(files, rules, order, from) is Some {
        from
    } else {
        first_stop(files, rules, order, from + 1)
    }
}

/// The place where the walk stops.
pub open spec fn stop_place(files: Seq<FileView>, rules: Rules) -> int {
    first_stop(files, rules, time_order(files), 0)
}

/// The place from which on the files are not fine: the place of the stop,
/// or the one behind it when the stop is at a program that was never edited.
pub open spec fn rest_from(files: Seq<FileView>, rules: Rules, order: Seq<int>, stop: int) -> int {
    if stop < files.len() && finding(files, rules, order, stop) == Some(GroupStatus::NotStart) {
        stop + 1
    } else {
        stop
    }
}

/// Whether some file at or after place `from` was not found.
pub open spec fn missing_from(files: Seq<FileView>, order: Seq<int>, from: int) -> bool {
    exists|i: int| from <= i < files.len() && #[trigger] files[order[i]].is_missing()
}

/// The status that the walk gives when it stops at `stop`.
pub open spec fn status_at(files: Seq<FileView>, rules: Rules, order: Seq<int>, stop: int)
    -> GroupStatus {
    if stop >= files.len() {
        GroupStatus::Ready
    } else {
        let found = finding(files, rules, order, stop)->0;
        if found != GroupStatus::NotStart && missing_from(files, order, stop) {
            GroupStatus::Building
        } else {
            found
        }
    }
}

/// The status of a track whose files, in canonical order, are `files`.
pub open spec fn chain_status(files: Seq<FileView>, rules: Rules) -> GroupStatus {
    status_at(files, rules, time_order(files), stop_place(files, rules))
}

/// The outcome of the file with index `k`, when the files from place `rest`
/// of `order` on are not fine.
pub open spec fn mark_at(files: Seq<FileView>, order: Seq<int>, rest: int, k: int)
    -> FileStatus {
    if files[k].is_missing() {
        FileStatus::Missing
    } else if order.skip(rest).contains(k) {
        FileStatus::Unexpected
    } else {
        FileStatus::Fine
    }
}

/// The outcome of the file with index `k`.
pub open spec fn mark_of(files: Seq<FileView>, rules: Rules, k: int) -> FileStatus {
    mark_at(
        files,
        time_order(files),
        rest_from(files, rules, time_order(files), stop_place(files, rules)),
        k,
    )
}

/// The files, in canonical order, each with its outcome.
pub open spec fn chain_marks(files: Seq<FileView>, rules: Rules) -> Seq<FileView> {
    Seq::new(files.len(), |k: int| files[k].with_status(mark_of(files, rules, k)))
}

/// Whether the walk finds nothing wrong at the places before `place`.
pub open spec fn fine_before(files: Seq<FileView>, rules: Rules, place: int) -> bool {
    forall|i: int| 0 <= i < place ==> finding(files, rules, time_order(files), i) is None
}

/// The file that stands at a place of the time order.
pub open spec fn file_at(files: Seq<FileView>, place: int) -> FileView {
    files[time_order(files)[place]]
}

/// The walk stops at the first place with a finding and nowhere before.
pub proof fn lemma_first_stop(files: Seq<FileView>, rules: Rules, order: Seq<int>, from: int)
    requires
        0 <= from <= files.len(),
    ensures
        from <= first_stop(files, rules, order, from) <= files.len(),
        forall|i: int|
            from <= i < first_stop(files, rules, order, from) ==> finding(files, rules, order, i)
                is None,
        first_stop(files, rules, order, from) < files.len() ==> finding(
            files,
            rules,
            order,
            first_stop(files, rules, order, from),
        ) is Some,
    decreases files.len() - from,
{
    if from < files.len() && finding(files, rules, order, from) is None {
        lemma_first_stop(files, rules, order, from + 1);
    }
}

/// A place with a finding, before which there is none, is where the walk
/// stops.
pub proof fn lemma_stops_at(files: Seq<FileView>, rules: Rules, place: int)
    requires
        0 <= place < files.len(),
        fine_before(files, rules, place),
        finding(files, rules, time_order(files), place) is Some,
    ensures
        stop_place(files, rules) == place,
{
    lemma_first_stop(files, rules, time_order(files), 0);
}

/// The time order holds every index once.
pub proof fn lemma_time_order(files: Seq<FileView>)
    ensures
        is_stable_order(sort_keys(files), time_order(files)),
        time_order(files).len() == files.len(),
        forall|i: int, j: int|
            0 <= i < j < files.len() ==> time_order(files)[i] != time_order(files)[j],
{
    lemma_stable_order(sort_keys(files));
    let order = time_order(files);
    let keys = sort_keys(files);
    assert forall|i: int, j: int| 0 <= i < j < files.len() implies order[i] != order[j] by {
        assert(comes_before(keys, order[i], order[j]));
    }
}

/// The outcome of each file, by its place in the time order: a file that
/// was not found is missing; of the others, those at or after the place
/// from which the files are not fine are unexpected, and those before it
/// are fine.
pub proof fn lemma_marks_by_place(files: Seq<FileView>, rules: Rules)
    ensures
        chain_marks(files, rules).len() == files.len(),
        forall|i: int|
            0 <= i < files.len() ==> (#[trigger] chain_marks(files, rules)[time_order(
                files,
            )[i]]).status == (if file_at(files, i).is_missing() {
                FileStatus::Missing
            } else if i >= rest_from(files, rules, time_order(files), stop_place(files, rules)) {
                FileStatus::Unexpected
            } else {
                FileStatus::Fine
            }),
        forall|k: int|
            0 <= k < files.len() ==> (#[trigger] chain_marks(files, rules)[k]) == files[k].with_status(
                chain_marks(files, rules)[k].status,
            ),
{
    lemma_time_order(files);
    lemma_first_stop(files, rules, time_order(files), 0);
    let order = time_order(files);
    let rest = rest_from(files, rules, order, stop_place(files, rules));
    assert forall|i: int| 0 <= i < files.len() implies (#[trigger] chain_marks(
        files,
        rules,
    )[order[i]]).status == (if file_at(files, i).is_missing() {
        FileStatus::Missing
    } else if i >= rest {
        FileStatus::Unexpected
    } else {
        FileStatus::Fine
    }) by {
        let k = order[i];
        assert(0 <= k < files.len());
        let late = order.skip(rest);
        if i >= rest {
            assert(late[i - rest] == k);
        } else if late.contains(k) {
            let w = choose|w: int| 0 <= w < late.len() && late[w] == k;
            assert(order[w + rest] == order[i]);
        }
    }
}

/// A track whose files were all found, none older than the one before it
/// in canonical order, with an edited program and nothing older than the
/// upstream input, is ready, and all its files are fine. Files whose times
/// strictly increase in canonical order are the case in point.
pub proof fn lemma_ordered_chain_is_ready(files: Seq<FileView>, rules: Rules)
    requires
        forall|i: int| 0 <= i < files.len() ==> !(#[trigger] files[i]).is_missing(),
        forall|i: int, j: int|
            0 <= i < j < files.len() ==> files[i].modified_at <= files[j].modified_at,
        forall|i: int| 0 <= i < files.len() ==> !not_started(#[trigger] files[i], rules),
        forall|i: int| 0 <= i < files.len() ==> !stale(#[trigger] files[i], rules),
    ensures
        chain_status(files, rules) == GroupStatus::Ready,
        forall|k: int|
            0 <= k < files.len() ==> (#[trigger] chain_marks(files, rules)[k]).status
                == FileStatus::Fine,
{
    let keys = sort_keys(files);
    lemma_ascending_keys_stay(keys);
    let order = time_order(files);
    assert(order == Seq::new(files.len(), |i: int| i));
    lemma_first_stop(files, rules, order, 0);
    let stop = stop_place(files, rules);
    if stop < files.len() {
        assert(order[stop] == stop);
        assert(finding(files, rules, order, stop) is None);
    }
    assert forall|k: int| 0 <= k < files.len() implies (#[trigger] chain_marks(
        files,
        rules,
    )[k]).status == FileStatus::Fine by {
        assert(order.skip(stop) =~= Seq::<int>::empty());
    }
}

/// A track with a file that was not found is building, whatever the times
/// of its files, unless its program was found and never edited.
pub proof fn lemma_missing_file_means_building(files: Seq<FileView>, rules: Rules)
    requires
        exists|k: int| 0 <= k < files.len() && (#[trigger] files[k]).is_missing(),
        forall|k: int|
            0 <= k < files.len() ==> (#[trigger] files[k]).is_missing() || !not_started(
                files[k],
                rules,
            ),
    ensures
        chain_status(files, rules) == GroupStatus::Building,
{
    lemma_time_order(files);
    let order = time_order(files);
    lemma_first_stop(files, rules, order, 0);
    let k = choose|k: int| 0 <= k < files.len() && (#[trigger] files[k]).is_missing();
    assert(order.contains(k));
    let p = choose|p: int| 0 <= p < order.len() && order[p] == k;
    assert(finding(files, rules, order, p) is Some);
    let stop = stop_place(files, rules);
    assert(stop <= p);
    assert(files[order[p]].is_missing());
    assert(missing_from(files, order, stop));
    assert(0 <= order[stop] < files.len());
}

/// A track is not started when the walk reaches a program that was found
/// and never edited, whatever holds of the files behind it.
pub proof fn lemma_unedited_program_means_not_started(
    files: Seq<FileView>,
    rules: Rules,
    place: int,
)
    requires
        0 <= place < files.len(),
        fine_before(files, rules, place),
        !file_at(files, place).is_missing(),
        not_started(file_at(files, place), rules),
    ensures
        chain_status(files, rules) == GroupStatus::NotStart,
{
    lemma_stops_at(files, rules, place);
}

/// A track whose first file is a program that was found and never
/// edited, and is no younger than any other file that was found, is not
/// started, whatever else holds of the other files.
pub proof fn lemma_oldest_program_unedited(files: Seq<FileView>, rules: Rules)
    requires
        files.len() > 0,
        !files[0].is_missing(),
        not_started(files[0], rules),
        forall|i: int|
            0 < i < files.len() ==> (#[trigger] files[i]).is_missing() || files[0].modified_at
                <= files[i].modified_at,
    ensures
        chain_status(files, rules) == GroupStatus::NotStart,
{
    lemma_time_order(files);
    let order = time_order(files);
    let keys = sort_keys(files);
    assert(order.contains(0));
    let p = choose|p: int| 0 <= p < order.len() && order[p] == 0;
    if p > 0 {
        assert(comes_before(keys, order[0], order[p]));
        assert(0 <= order[0] < files.len());
    }
    lemma_unedited_program_means_not_started(files, rules, 0);
}

/// A track in which nothing is missing is changed when the walk reaches a
/// file, other than the program, that is older than the upstream input.
pub proof fn lemma_stale_file_means_changed(files: Seq<FileView>, rules: Rules, place: int)
    requires
        0 <= place < files.len(),
        fine_before(files, rules, place),
        !file_at(files, place).is_missing(),
        stale(file_at(files, place), rules),
        forall|k: int| 0 <= k < files.len() ==> !(#[trigger] files[k]).is_missing(),
    ensures
        chain_status(files, rules) == GroupStatus::Changed,
{
    lemma_stops_at(files, rules, place);
    lemma_time_order(files);
    let order = time_order(files);
    assert forall|i: int| place <= i < files.len() implies !(#[trigger] files[order[i]]).is_missing() by {
        assert(0 <= order[i] < files.len());
    }
}

/// When the walk reaches a file, other than the program, that is older
/// than the upstream input, that file and all behind it in the time order
/// are unexpected, but for those that were not found, which are missing;
/// the files before it are fine.
pub proof fn lemma_stale_file_marks_rest(files: Seq<FileView>, rules: Rules, place: int)
    requires
        0 <= place < files.len(),
        fine_before(files, rules, place),
        !file_at(files, place).is_missing(),
        stale(file_at(files, place), rules),
    ensures
        forall|i: int|
            place <= i < files.len() ==> (#[trigger] chain_marks(files, rules)[time_order(
                files,
            )[i]]).status == (if file_at(files, i).is_missing() {
                FileStatus::Missing
            } else {
                FileStatus::Unexpected
            }),
        forall|i: int|
            0 <= i < place ==> (#[trigger] chain_marks(files, rules)[time_order(files)[i]]).status
                == FileStatus::Fine,
{
    lemma_stops_at(files, rules, place);
    lemma_marks_by_place(files, rules);
    assert forall|i: int| 0 <= i < place implies !file_at(files, i).is_missing() by {
        assert(finding(files, rules, time_order(files), i) is None);
    }
}

/// The time by which a file is arranged.
fn key_of(f: &File) -> (k: u64)
    ensures
        k == sort_key(f@),
{
    if f.is_missing() {
        u64::MAX
    } else {
        f.modified_at()
    }
}

/// What is wrong with the file at place `i` of `order`.
fn finding_at(files: &Vec<File>, rules: &Rules, order: &Vec<usize>, i: usize) -> (r: Option<
    GroupStatus,
>)
    requires
        i < files.len(),
        order.len() == files.len(),
        forall|j: int| 0 <= j < order.len() ==> order@[j] < files.len(),
    ensures
        r == finding(views_of(files@), *rules, indices(order@), i as int),
{
    let f = &files[order[i]];
    if f.is_missing() {
        return Some(GroupStatus::Building);
    }
    if f.kind() == FileKind::SasCode {
        if let Some(init_size) = rules.init_size {
            if !f.start_edit(init_size) {
                return Some(GroupStatus::NotStart);
            }
        }
    }
    if f.kind() != FileKind::SasCode && f.modified_at() < rules.watermark {
        return Some(GroupStatus::Changed);
    }
    if !f.equal(&files[i]) {
        return Some(GroupStatus::Unexpected);
    }
    None
}

/// Whether some file at or after place `from` of `order` was not found.
fn any_missing_from(files: &Vec<File>, order: &Vec<usize>, from: usize) -> (r: bool)
    requires
        from <= files.len(),
        order.len() == files.len(),
        forall|j: int| 0 <= j < order.len() ==> order@[j] < files.len(),
    ensures
        r == missing_from(views_of(files@), indices(order@), from as int),
{
    let mut i: usize = from;
    while i < files.len()
        invariant
            from <= i <= files.len(),
            order.len() == files.len(),
            forall|j: int| 0 <= j < order.len() ==> order@[j] < files.len(),
            forall|j: int|
                from <= j < i ==> !(#[trigger] views_of(files@)[indices(order@)[j]]).is_missing(),
        decreases files.len() - i,
    {
        if files[order[i]].is_missing() {
            assert(views_of(files@)[indices(order@)[i as int]].is_missing());
            return true;
        }
        i = i + 1;
    }
    false
}

/// The files with their outcomes, when those from place `rest` of `order` on
/// are not fine.
fn mark_files(files: &Vec<File>, order: &Vec<usize>, rest: usize) -> (marked: Vec<File>)
    requires
        rest <= files.len(),
        order.len() == files.len(),
        forall|j: int| 0 <= j < order.len() ==> order@[j] < files.len(),
    ensures
        marked.len() == files.len(),
        forall|k: int|
            0 <= k < files.len() ==> (#[trigger] marked@[k])@ == views_of(files@)[k].with_status(
                mark_at(views_of(files@), indices(order@), rest as int, k),
            ),
{
    let n = files.len();
    let mut late: Vec<bool> = Vec::new();
    let mut k: usize = 0;
    while k < n
        invariant
            k <= n,
            late.len() == k,
            forall|j: int| 0 <= j < k ==> !late@[j],
        decreases n - k,
    {
        late.push(false);
        k = k + 1;
    }
    let mut i: usize = rest;
    while i < n
        invariant
            rest <= i <= n,
            n == files.len(),
            late.len() == n,
            order.len() == n,
            forall|j: int| 0 <= j < order.len() ==> order@[j] < n,
            forall|j: int|
                0 <= j < n ==> (#[trigger] late@[j] <==> indices(order@).subrange(
                    rest as int,
                    i as int,
                ).contains(j)),
        decreases n - i,
    {
        let ghost before = late@;
        late.set(order[i], true);
        proof {
            let ord = indices(order@);
            let old_part = ord.subrange(rest as int, i as int);
            let new_part = ord.subrange(rest as int, i + 1);
            assert(new_part =~= old_part.push(ord[i as int]));
            assert forall|j: int| 0 <= j < n implies (#[trigger] late@[j] <==> new_part.contains(
                j,
            )) by {
                if j == ord[i as int] {
                    assert(new_part[new_part.len() - 1] == j);
                } else {
                    assert(late@[j] == before[j]);
                    if old_part.contains(j) {
                        let w = choose|w: int| 0 <= w < old_part.len() && old_part[w] == j;
                        assert(new_part[w] == j);
                    }
                    if new_part.contains(j) {
                        let w = choose|w: int| 0 <= w < new_part.len() && new_part[w] == j;
                        assert(old_part[w] == j);
                    }
                }
            }
        }
        i = i + 1;
    }
    proof {
        assert(indices(order@).subrange(rest as int, n as int) =~= indices(order@).skip(
            rest as int,
        ));
    }
    let mut marked: Vec<File> = Vec::new();
    let mut k: usize = 0;
    while k < n
        invariant
            k <= n,
            n == files.len(),
            late.len() == n,
            marked.len() == k,
            forall|j: int|
                0 <= j < n ==> (#[trigger] late@[j] <==> indices(order@).skip(
                    rest as int,
                ).contains(j)),
            forall|j: int|
                0 <= j < k ==> (#[trigger] marked@[j])@ == views_of(files@)[j].with_status(
                    mark_at(views_of(files@), indices(order@), rest as int, j),
                ),
        decreases n - k,
    {
        let f = &files[k];
        let status = if f.is_missing() {
            FileStatus::Missing
        } else if late[k] {
            FileStatus::Unexpected
        } else {
            FileStatus::Fine
        };
        marked.push(f.marked(status));
        k = k + 1;
    }
    marked
}

/// Audits one track. `files` are the track's required files in canonical
/// order, each as it was observed. Returns the track's status and the files,
/// in the same order, each with its outcome.
pub fn audit_chain(files: &Vec<File>, rules: &Rules) -> (r: (GroupStatus, Vec<File>))
    ensures
        r.0 == chain_status(views_of(files@), *rules),
        views_of(r.1@) == chain_marks(views_of(files@), *rules),
        r.1.len() == files.len(),
{
    let n = files.len();
    let mut keys: Vec<u64> = Vec::new();
    let mut k: usize = 0;
    while k < n
        invariant
            k <= n,
            n == files.len(),
            keys@ == sort_keys(views_of(files@)).take(k as int),
        decreases n - k,
    {
        keys.push(key_of(&files[k]));
        proof {
            let all = sort_keys(views_of(files@));
            assert(all.take(k + 1) =~= all.take(k as int).push(all[k as int]));
        }
        k = k + 1;
    }
    proof {
        let all = sort_keys(views_of(files@));
        assert(all.take(n as int) =~= all);
    }
    let order = sort_order(&keys);
    let mut stop: usize = 0;
    let mut found: Option<GroupStatus> = None;
    while stop < n
        invariant_except_break
            found is None,
        invariant
            stop <= n,
            n == files.len(),
            order.len() == n,
            forall|j: int| 0 <= j < order.len() ==> order@[j] < n,
            first_stop(views_of(files@), *rules, indices(order@), 0) == first_stop(
                views_of(files@),
                *rules,
                indices(order@),
                stop as int,
            ),
        ensures
            stop as int == first_stop(views_of(files@), *rules, indices(order@), 0),
            stop < n ==> found == finding(views_of(files@), *rules, indices(order@), stop as int),
            found is Some <==> stop < n,
        decreases n - stop,
    {
        found = finding_at(files, rules, &order, stop);
        if found.is_some() {
            break ;
        }
        stop = stop + 1;
    }
    let (status, rest) = match found {
        None => (GroupStatus::Ready, stop),
        Some(GroupStatus::NotStart) => (GroupStatus::NotStart, stop + 1),
        Some(other) => {
            if any_missing_from(files, &order, stop) {
                (GroupStatus::Building, stop)
            } else {
                (other, stop)
            }
        },
    };
    let marked = mark_files(files, &order, rest);
    proof {
        assert(views_of(marked@) =~= chain_marks(views_of(files@), *rules));
    }
    (status, marked)
}

} // verus!
