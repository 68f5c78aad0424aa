//! The shape of a report and how it is drawn from an audited module.

use vstd::prelude::*;

use crate::module::file::{FileKind, FileStatus, FileView};
use crate::module::group::{GroupStatus, GroupView};
use crate::module::item::ItemView;
use crate::order::{
    arranged, comes_before, indices, is_stable_order, lemma_stable_order, sort_order, stable_order,
};
use crate::text::{chars_of, last_index_of, lemma_last_index_of, rfind, slice, uppercase};
use crate::track::Role;

verus! {

/// A file as the report shows it.
#[derive(Debug, Clone)]
pub struct File {
    pub status: FileStatus,
    pub name: String,
    pub kind: FileKind,
    pub modified_at: u64,
}

/// The mathematical content of a [`File`] of a report.
pub struct ShownFile {
    pub status: FileStatus,
    pub name: Seq<char>,
    pub kind: FileKind,
    pub modified_at: u64,
}

impl View for File {
    type V = ShownFile;

    open spec fn view(&self) -> ShownFile {
        ShownFile {
            status: self.status,
            name: self.name@,
            kind: self.kind,
            modified_at: self.modified_at,
        }
    }
}

/// The views of a sequence of shown files.
pub open spec fn shown_files(files: Seq<File>) -> Seq<ShownFile> {
    files.map_values(|f: File| f@)
}

/// A track as the report shows it.
#[derive(Debug, Clone)]
pub struct Group {
    pub status: GroupStatus,
    pub files: Vec<File>,
}

/// The mathematical content of a [`Group`] of a report.
pub struct ShownGroup {
    pub status: GroupStatus,
    pub files: Seq<ShownFile>,
}

impl View for Group {
    type V = ShownGroup;

    open spec fn view(&self) -> ShownGroup {
        ShownGroup { status: self.status, files: shown_files(self.files@) }
    }
}

/// A deliverable as the report shows it.
#[derive(Debug, Clone)]
pub struct Item {
    pub name: String,
    pub timeline: Vec<File>,
    pub groups: Vec<Group>,
}

/// The mathematical content of an [`Item`] of a report.
pub struct ShownItem {
    pub name: Seq<char>,
    pub timeline: Seq<ShownFile>,
    pub groups: Seq<ShownGroup>,
}

impl View for Item {
    type V = ShownItem;

    open spec fn view(&self) -> ShownItem {
        ShownItem {
            name: self.name@,
            timeline: shown_files(self.timeline@),
            groups: self.groups@.map_values(|g: Group| g@),
        }
    }
}

/// The report of a category.
#[derive(Debug, Clone)]
pub struct Module {
    pub items: Vec<Item>,
}

impl View for Module {
    type V = Seq<ShownItem>;

    open spec fn view(&self) -> Seq<ShownItem> {
        self.items@.map_values(|i: Item| i@)
    }
}

/// Where a file name parts into name and extension: at its last dot,
/// unless that is its first character; 0 when it does not part.
pub open spec fn split_point(filename: Seq<char>) -> int {
    match last_index_of(filename, '.', 1, filename.len() - 1) {
        Some(p) => p,
        None => 0,
    }
}

/// The name of a file without its extension.
pub open spec fn stem_of(filename: Seq<char>) -> Seq<char> {
    if split_point(filename) > 0 {
        filename.take(split_point(filename))
    } else {
        filename
    }
}

/// The extension of a file, without the dot; empty when the file has
/// none.
pub open spec fn extension_of(filename: Seq<char>) -> Seq<char> {
    if split_point(filename) > 0 {
        filename.skip(split_point(filename) + 1)
    } else {
        Seq::empty()
    }
}

/// Parts a file name into name and extension: `ae.xpt` gives `ae` and
/// `xpt`.
pub fn split_filename(filename: &str) -> (r: (String, String))
    ensures
        r.0@ == stem_of(filename@),
        r.1@ == extension_of(filename@),
{
    let chars = chars_of(filename);
    match rfind(&chars, '.', 1) {
        Some(break_pos) => {
            proof {
                lemma_last_index_of(filename@, '.', 1, filename@.len() - 1);
            }
            (slice(filename, 0, break_pos), slice(filename, break_pos + 1, chars.len()))
        },
        None => (filename.to_owned(), String::new()),
    }
}

/// A file of the audit as the report shows it: under its name without
/// extension.
pub open spec fn shown(f: FileView) -> ShownFile {
    ShownFile { status: f.status, name: stem_of(f.name), kind: f.kind, modified_at: f.modified_at }
}

/// The file that fills a role in a group.
pub open spec fn picked(group: GroupView, role: Role) -> FileView {
    if role.supp {
        group.files_of(role.kind).1
    } else {
        group.files_of(role.kind).0
    }
}

/// The files of a group that the report lists: of the given roles, in
/// their order, those that are required.
pub open spec fn listed(group: GroupView, roles: Seq<Role>) -> Seq<ShownFile>
    decreases roles.len(),
{
    if roles.len() == 0 {
        Seq::empty()
    } else {
        let before = listed(group, roles.drop_last());
        let f = picked(group, roles.last());
        if f.required {
            before.push(shown(f))
        } else {
            before
        }
    }
}

/// The files of a group that go on the timeline: of the given roles, in
/// their order, those that are required and were found.
pub open spec fn dated(group: GroupView, roles: Seq<Role>) -> Seq<ShownFile>
    decreases roles.len(),
{
    if roles.len() == 0 {
        Seq::empty()
    } else {
        let before = dated(group, roles.drop_last());
        let f = picked(group, roles.last());
        if f.required && !f.is_missing() {
            before.push(shown(f))
        } else {
            before
        }
    }
}

/// The times of the files.
pub open spec fn times_of(files: Seq<ShownFile>) -> Seq<u64> {
    files.map_values(|f: ShownFile| f.modified_at)
}

/// The files by the time they were last modified, oldest first; files of
/// the same time keep their order.
pub open spec fn by_time(files: Seq<ShownFile>) -> Seq<ShownFile> {
    arranged(files, stable_order(times_of(files)))
}

/// A timeline holds the files it was made of, each once, and none of them
/// is younger than one behind it.
pub proof fn lemma_by_time(files: Seq<ShownFile>)
    ensures
        by_time(files).len() == files.len(),
        is_stable_order(times_of(files), stable_order(times_of(files))),
        forall|i: int|
            0 <= i < files.len() ==> #[trigger] by_time(files)[i] == files[stable_order(
                times_of(files),
            )[i]],
        forall|i: int, j: int|
            0 <= i < j < files.len() ==> (#[trigger] by_time(files)[i]).modified_at <= (
            #[trigger] by_time(files)[j]).modified_at,
{
    lemma_stable_order(times_of(files));
    let order = stable_order(times_of(files));
    assert forall|i: int, j: int| 0 <= i < j < files.len() implies (#[trigger] by_time(
        files,
    )[i]).modified_at <= (#[trigger] by_time(files)[j]).modified_at by {
        assert(comes_before(times_of(files), order[i], order[j]));
    }
}

/// What a report is drawn by: which files of each track are shown, in
/// which order.
pub struct Plan {
    pub dev: Seq<Role>,
    pub qc: Seq<Role>,
}

/// The report of one deliverable under the name `name`: on its timeline
/// the required files of both tracks that were found, each once, oldest
/// first; and its two tracks, production first.
pub open spec fn item_report(item: ItemView, name: Seq<char>, plan: Plan) -> ShownItem {
    ShownItem {
        name,
        timeline: by_time(dated(item.dev, plan.dev) + dated(item.qc, plan.qc)),
        groups: seq![
            ShownGroup { status: item.dev.status, files: listed(item.dev, plan.dev) },
            ShownGroup { status: item.qc.status, files: listed(item.qc, plan.qc) },
        ],
    }
}

/// A copy of a shown file.
pub fn copy_file(f: &File) -> (r: File)
    ensures
        r@ == f@,
{
    File { status: f.status, name: f.name.clone(), kind: f.kind, modified_at: f.modified_at }
}

/// A file of the audit as the report shows it.
pub fn show(f: &crate::module::file::File) -> (r: File)
    ensures
        r@ == shown(f@),
{
    File {
        name: split_filename(f.name()).0,
        status: f.status(),
        kind: f.kind(),
        modified_at: f.modified_at(),
    }
}

/// The file that fills a role in a group.
pub fn pick(group: &crate::module::group::Group, role: Role) -> (f: crate::module::file::File)
    ensures
        f@ == picked(group@, role),
{
    let (main, supp) = group.get_file_copies(role.kind);
    if role.supp {
        supp
    } else {
        main
    }
}

/// Adds the files of a group to the timeline and returns the group as the
/// report shows it.
pub fn show_group(group: &crate::module::group::Group, roles: &Vec<Role>, timeline: &mut Vec<File>)
    -> (r: Group)
    ensures
        r@ == (ShownGroup { status: group@.status, files: listed(group@, roles@) }),
        shown_files(final(timeline)@) == shown_files(old(timeline)@) + dated(group@, roles@),
{
    let mut files: Vec<File> = Vec::new();
    let mut i: usize = 0;
    proof {
        assert(shown_files(timeline@) + Seq::empty() =~= shown_files(timeline@));
        assert(shown_files(files@) =~= Seq::empty());
    }
    while i < roles.len()
        invariant
            i <= roles.len(),
            shown_files(files@) == listed(group@, roles@.take(i as int)),
            shown_files(timeline@) == shown_files(old(timeline)@) + dated(
                group@,
                roles@.take(i as int),
            ),
        decreases roles.len() - i,
    {
        let f = pick(group, roles[i]);
        proof {
            assert(roles@.take(i + 1).drop_last() =~= roles@.take(i as int));
        }
        if f.is_required() {
            let file = show(&f);
            let ghost line = shown_files(timeline@);
            let ghost list = shown_files(files@);
            if !f.is_missing() {
                timeline.push(copy_file(&file));
                proof {
                    assert(shown_files(timeline@) =~= line.push(shown(f@)));
                    assert(line.push(shown(f@)) =~= shown_files(old(timeline)@) + dated(
                        group@,
                        roles@.take(i as int),
                    ).push(shown(f@)));
                }
            }
            files.push(file);
            proof {
                assert(shown_files(files@) =~= list.push(shown(f@)));
            }
        }
        i = i + 1;
    }
    proof {
        assert(roles@.take(roles.len() as int) =~= roles@);
    }
    Group { status: group.status(), files }
}

/// The files by the time they were last modified, oldest first.
pub fn sort_timeline(files: &Vec<File>) -> (r: Vec<File>)
    ensures
        shown_files(r@) == by_time(shown_files(files@)),
{
    let mut keys: Vec<u64> = Vec::new();
    let mut k: usize = 0;
    while k < files.len()
        invariant
            k <= files.len(),
            keys@ == times_of(shown_files(files@)).take(k as int),
        decreases files.len() - k,
    {
        keys.push(files[k].modified_at);
        proof {
            let all = times_of(shown_files(files@));
            assert(all.take(k + 1) =~= all.take(k as int).push(all[k as int]));
        }
        k = k + 1;
    }
    proof {
        let all = times_of(shown_files(files@));
        assert(all.take(files.len() as int) =~= all);
    }
    let order = sort_order(&keys);
    let mut sorted: Vec<File> = Vec::new();
    let mut i: usize = 0;
    while i < order.len()
        invariant
            i <= order.len(),
            order.len() == files.len(),
            forall|j: int| 0 <= j < order.len() ==> order@[j] < files.len(),
            indices(order@) == stable_order(times_of(shown_files(files@))),
            shown_files(sorted@) == by_time(shown_files(files@)).take(i as int),
        decreases order.len() - i,
    {
        let ghost before = shown_files(sorted@);
        sorted.push(copy_file(&files[order[i]]));
        proof {
            let all = by_time(shown_files(files@));
            assert(indices(order@)[i as int] == order@[i as int]);
            assert(shown_files(sorted@) =~= before.push(all[i as int]));
            assert(all.take(i + 1) =~= all.take(i as int).push(all[i as int]));
        }
        i = i + 1;
    }
    proof {
        let all = by_time(shown_files(files@));
        assert(all.take(order.len() as int) =~= all);
    }
    sorted
}

/// The report of one deliverable under the name `name`: the files that
/// were found on a timeline, and the two tracks with the files they
/// require.
pub fn report_item(
    item: &crate::module::item::Item,
    name: String,
    dev: &Vec<Role>,
    qc: &Vec<Role>,
) -> (r: Item)
    ensures
        r@ == item_report(item@, name@, Plan { dev: dev@, qc: qc@ }),
{
    let mut timeline: Vec<File> = Vec::new();
    proof {
        assert(shown_files(timeline@) =~= Seq::empty());
        assert(Seq::<ShownFile>::empty() + dated(item@.dev, dev@) =~= dated(item@.dev, dev@));
    }
    let dev_group = show_group(item.dev(), dev, &mut timeline);
    let qc_group = show_group(item.qc(), qc, &mut timeline);
    let sorted = sort_timeline(&timeline);
    let mut groups: Vec<Group> = Vec::new();
    groups.push(dev_group);
    groups.push(qc_group);
    let r = Item { name, timeline: sorted, groups };
    proof {
        assert(r@.groups =~= seq![
            ShownGroup { status: item@.dev.status, files: listed(item@.dev, dev@) },
            ShownGroup { status: item@.qc.status, files: listed(item@.qc, qc@) },
        ]);
    }
    r
}

/// The name under which a deliverable is reported: its own, in upper case
/// where the category asks for that.
pub open spec fn reported_name(name: Seq<char>, upper: bool) -> Seq<char> {
    if upper {
        uppercase(name)
    } else {
        name
    }
}

/// The report of the deliverables of a module, in their order.
pub open spec fn module_report(items: Seq<ItemView>, plan: Plan, upper: bool) -> Seq<ShownItem> {
    items.map_values(|i: ItemView| item_report(i, reported_name(i.name, upper), plan))
}

/// The report of an audited module.
pub fn report_module(
    m: &crate::module::module::Module,
    dev: &Vec<Role>,
    qc: &Vec<Role>,
    upper: bool,
) -> (r: Module)
    ensures
        r@ == module_report(m@, Plan { dev: dev@, qc: qc@ }, upper),
{
    let items = m.items();
    let ghost plan = Plan { dev: dev@, qc: qc@ };
    let mut module = Module { items: Vec::new() };
    let mut k: usize = 0;
    while k < items.len()
        invariant
            k <= items.len(),
            plan == (Plan { dev: dev@, qc: qc@ }),
            crate::module::module::item_views(items@) == m@,
            module@ == module_report(m@, plan, upper).take(k as int),
        decreases items.len() - k,
    {
        let i = &items[k];
        let name = if upper {
            i.name().to_uppercase()
        } else {
            i.name().to_owned()
        };
        let ghost before = module@;
        let item = report_item(i, name, dev, qc);
        module.items.push(item);
        proof {
            let all = module_report(m@, plan, upper);
            assert(m@[k as int] == i@);
            assert(module@ =~= before.push(all[k as int]));
            assert(all.take(k + 1) =~= all.take(k as int).push(all[k as int]));
        }
        k = k + 1;
    }
    proof {
        let all = module_report(m@, plan, upper);
        assert(all.take(items.len() as int) =~= all);
    }
    module
}

} // verus!
