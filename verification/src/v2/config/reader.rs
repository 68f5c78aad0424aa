//! What a catalog says of a deliverable, and the reading of a catalog by
//! category.

use vstd::prelude::*;

use crate::sheet::{SheetView, Workbook};
use crate::v2::category::Kind;
use crate::v2::config::adam::AdamConfigReader;
use crate::v2::config::sdtm::SdtmConfigReader;
use crate::v2::config::tfl::TflConfigReader;
use crate::v2::error::Error;

verus! {

/// A deliverable as the catalog lists it.
#[derive(Debug, Clone)]
pub struct Config {
    pub name: String,
    /// Whether the domain has a supplementary domain.
    pub supp: bool,
    /// Whether QC is asked for the deliverable.
    pub qc: bool,
    /// The row of the catalog that lists it.
    pub order: usize,
}

/// The mathematical content of a [`Config`].
pub struct ConfigView {
    pub name: Seq<char>,
    pub supp: bool,
    pub qc: bool,
    pub order: usize,
}

impl View for Config {
    type V = ConfigView;

    open spec fn view(&self) -> ConfigView {
        ConfigView { name: self.name@, supp: self.supp, qc: self.qc, order: self.order }
    }
}

/// The views of a list of deliverables.
pub open spec fn configs_of(list: Seq<Config>) -> Seq<ConfigView> {
    list.map_values(|c: Config| c@)
}

impl Default for Config {
    fn default() -> (c: Config)
        ensures
            c@ == (ConfigView { name: Seq::empty(), supp: false, qc: true, order: 0 }),
    {
        Config { name: String::new(), supp: false, qc: true, order: 0 }
    }
}

impl Config {
    /// A copy of this entry.
    pub fn duplicate(&self) -> (c: Config)
        ensures
            c@ == self@,
    {
        Config { name: self.name.clone(), supp: self.supp, qc: self.qc, order: self.order }
    }
}

/// A copy of a list of deliverables.
pub fn copy_configs(list: &Vec<Config>) -> (r: Vec<Config>)
    ensures
        configs_of(r@) == configs_of(list@),
{
    let mut r: Vec<Config> = Vec::new();
    let mut i: usize = 0;
    while i < list.len()
        invariant
            i <= list.len(),
            configs_of(r@) == configs_of(list@).take(i as int),
        decreases list.len() - i,
    {
        let ghost before = configs_of(r@);
        r.push(list[i].duplicate());
        proof {
            let all = configs_of(list@);
            assert(configs_of(r@) =~= before.push(all[i as int]));
            assert(all.take(i + 1) =~= all.take(i as int).push(all[i as int]));
        }
        i = i + 1;
    }
    proof {
        let all = configs_of(list@);
        assert(all.take(list.len() as int) =~= all);
    }
    r
}

/// What an unfinished reading amounts to: the deliverables read so far
/// followed by those that the rest of the sheet lists.
pub open spec fn continued(read: Seq<ConfigView>, rest: Option<Seq<ConfigView>>) -> Option<
    Seq<ConfigView>,
> {
    match rest {
        Some(more) => Some(read + more),
        None => None,
    }
}

/// A reader of the catalog of one category.
pub trait ConfigReader {
    /// The deliverables that a workbook lists, or `None` when the workbook
    /// lacks a sheet that the reader needs.
    spec fn listed(&self, book: Seq<SheetView>) -> Option<Seq<ConfigView>>;

    /// Reads the catalog. Fails with `ReadConfigFailed` when the workbook
    /// lacks a sheet that the reader needs.
    fn read(&self, file: &Workbook) -> (r: Result<Vec<Config>, Error>)
        ensures
            r is Ok <==> self.listed(file@) is Some,
            r matches Ok(list) ==> Some(configs_of(list@)) == self.listed(file@),
            r matches Err(e) ==> e@ == crate::v2::error::ErrorView::ReadConfigFailed,
    ;
}

/// The deliverables that a workbook lists for a category.
pub open spec fn config_of(book: Seq<SheetView>, kind: Kind) -> Option<Seq<ConfigView>> {
    match kind {
        Kind::SDTM => SdtmConfigReader.listed(book),
        Kind::ADaM => AdamConfigReader.listed(book),
        Kind::TFLs => TflConfigReader.listed(book),
    }
}

/// Reads the catalog of a category. Fails with `ReadConfigFailed` when the
/// workbook lacks a sheet that the category's reader needs.
pub fn read_config(file: &Workbook, kind: &Kind) -> (r: Result<Vec<Config>, Error>)
    ensures
        r is Ok <==> config_of(file@, *kind) is Some,
        r matches Ok(list) ==> Some(configs_of(list@)) == config_of(file@, *kind),
        r matches Err(e) ==> e@ == crate::v2::error::ErrorView::ReadConfigFailed,
{
    match kind {
        Kind::SDTM => SdtmConfigReader::new().read(file),
        Kind::ADaM => AdamConfigReader::new().read(file),
        Kind::TFLs => TflConfigReader::new().read(file),
    }
}

} // verus!
