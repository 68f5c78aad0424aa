//! The catalog of the ADaM datasets.

use vstd::prelude::*;

use crate::sheet::{cell_of, row_of, rows_of, sheet_rows, text_at, CellView, SheetView, Workbook};
use crate::v2::config::reader::{configs_of, Config, ConfigReader, ConfigView};
use crate::v2::error::Error;

verus! {

/// The sheet that lists the datasets.
pub const CONTENT: &'static str = "CONTENT";

/// The row in which the list of datasets begins.
pub const CONTENT_START_ROW: usize = 6;

/// The column that holds the datasets' names.
pub const DOMAIN_COLUMN: usize = 0;

/// The datasets that the rows from row `from` on list. The list ends at
/// the first row without a name.
pub open spec fn datasets_from(rows: Seq<Seq<CellView>>, from: int) -> Seq<ConfigView>
    decreases rows.len() - from,
{
    if from >= rows.len() || from < 0 {
        Seq::empty()
    } else {
        let domain = cell_of(rows[from], DOMAIN_COLUMN as int).text();
        if domain.len() == 0 {
            Seq::empty()
        } else {
            seq![ConfigView { name: domain, supp: false, qc: true, order: from as usize }]
                + datasets_from(rows, from + 1)
        }
    }
}

/// The reader of the catalog of the ADaM datasets.
#[derive(Debug, Clone, Copy)]
pub struct AdamConfigReader;

impl AdamConfigReader {
    /// A reader of the catalog of the ADaM datasets.
    pub fn new() -> AdamConfigReader {
        AdamConfigReader
    }
}

impl ConfigReader for AdamConfigReader {
    open spec fn listed(&self, book: Seq<SheetView>) -> Option<Seq<ConfigView>> {
        match sheet_rows(book, CONTENT@) {
            None => None,
            Some(rows) => Some(datasets_from(rows, CONTENT_START_ROW as int)),
        }
    }

    fn read(&self, file: &Workbook) -> (r: Result<Vec<Config>, Error>) {
        let mut configs: Vec<Config> = Vec::new();
        let range = match file.worksheet_range(CONTENT) {
            Some(range) => range,
            None => {
                return Err(Error::ReadConfigFailed);
            },
        };
        let ghost rows = rows_of(range.rows@);
        let mut n: usize = CONTENT_START_ROW;
        proof {
            assert(configs_of(configs@) =~= Seq::empty());
            assert(Seq::<ConfigView>::empty() + datasets_from(rows, n as int) =~= datasets_from(
                rows,
                n as int,
            ));
        }
        while n < range.rows.len()
            invariant
                CONTENT_START_ROW <= n,
                rows == rows_of(range.rows@),
                self.listed(file@) == Some(configs_of(configs@) + datasets_from(rows, n as int)),
            decreases range.rows.len() - n,
        {
            let row = &range.rows[n];
            assert(rows[n as int] == row_of(*row));
            let domain = text_at(row, DOMAIN_COLUMN);
            if domain.as_str().unicode_len() == 0 {
                proof {
                    assert(configs_of(configs@) + Seq::empty() =~= configs_of(configs@));
                }
                return Ok(configs);
            }
            let ghost before = configs_of(configs@);
            let ghost entry = ConfigView { name: domain@, supp: false, qc: true, order: n };
            configs.push(Config { name: domain, supp: false, qc: true, order: n });
            proof {
                assert(configs_of(configs@) =~= before.push(entry));
                assert(before + (seq![entry] + datasets_from(rows, n + 1)) =~= before.push(entry)
                    + datasets_from(rows, n + 1));
            }
            n = n + 1;
        }
        proof {
            assert(configs_of(configs@) + Seq::empty() =~= configs_of(configs@));
        }
        Ok(configs)
    }
}

} // verus!
