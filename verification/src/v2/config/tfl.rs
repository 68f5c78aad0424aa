//! The catalog of the tables, figures and listings.

use vstd::prelude::*;

use crate::sheet::{
    cell_of, row_of, rows_of, sheet_rows, text_at, Cell, CellView, SheetView, Workbook,
};
use crate::text::same;
use crate::v2::config::reader::{configs_of, Config, ConfigReader, ConfigView};
use crate::v2::error::Error;

verus! {

/// The sheet that lists the outputs.
pub const TOP: &'static str = "top";

/// The row in which the list of outputs begins.
pub const CONTENT_START_ROW: usize = 1;

/// The column that holds the outputs' names.
pub const OUTPUT_NAME_COLUMN: usize = 4;

/// The column that holds the level of validation.
pub const VALIDATION_LEVEL_COLUMN: usize = 0;

/// The level of validation that asks for QC, as a text.
pub const VALIDATION_FLAG_STRING: &'static str = "3";

/// The level of validation that asks for QC, as a number.
pub const VALIDATION_FLAG_NUMBER: i64 = 3;

/// Whether a level of validation asks for QC: the text `3`, or the number
/// 3 written with a fraction part.
pub open spec fn asks_for_qc(cell: CellView) -> bool {
    match cell {
        CellView::Text(s) => s == VALIDATION_FLAG_STRING@,
        CellView::Float { whole, .. } => whole == Some(VALIDATION_FLAG_NUMBER),
        _ => false,
    }
}

/// The outputs that the rows from row `from` on list. Rows without a name
/// are passed over.
pub open spec fn outputs_from(rows: Seq<Seq<CellView>>, from: int) -> Seq<ConfigView>
    decreases rows.len() - from,
{
    if from >= rows.len() || from < 0 {
        Seq::empty()
    } else {
        let domain = cell_of(rows[from], OUTPUT_NAME_COLUMN as int).text();
        if domain.len() == 0 {
            outputs_from(rows, from + 1)
        } else {
            seq![
                ConfigView {
                    name: domain,
                    supp: false,
                    qc: asks_for_qc(cell_of(rows[from], VALIDATION_LEVEL_COLUMN as int)),
                    order: from as usize,
                },
            ] + outputs_from(rows, from + 1)
        }
    }
}

/// The reader of the catalog of the tables, figures and listings.
#[derive(Debug, Clone, Copy)]
pub struct TflConfigReader;

impl TflConfigReader {
    /// A reader of the catalog of the tables, figures and listings.
    pub fn new() -> TflConfigReader {
        TflConfigReader
    }
}

/// Whether a level of validation asks for QC. A missing cell does not.
pub fn validation(cell: Option<&Cell>) -> (r: bool)
    ensures
        r == (match cell {
            Some(c) => asks_for_qc(c@),
            None => false,
        }),
{
    match cell {
        Some(Cell::Text(cell)) => same(cell.as_str(), VALIDATION_FLAG_STRING),
        Some(Cell::Float { whole, .. }) => match whole {
            Some(n) => *n == VALIDATION_FLAG_NUMBER,
            None => false,
        },
        _ => false,
    }
}

impl ConfigReader for TflConfigReader {
    open spec fn listed(&self, book: Seq<SheetView>) -> Option<Seq<ConfigView>> {
        match sheet_rows(book, TOP@) {
            None => None,
            Some(rows) => Some(outputs_from(rows, CONTENT_START_ROW as int)),
        }
    }

    fn read(&self, file: &Workbook) -> (r: Result<Vec<Config>, Error>) {
        let mut configs: Vec<Config> = Vec::new();
        let range = match file.worksheet_range(TOP) {
            Some(range) => range,
            None => {
                return Err(Error::ReadConfigFailed);
            },
        };
        let ghost rows = rows_of(range.rows@);
        let mut n: usize = CONTENT_START_ROW;
        proof {
            assert(configs_of(configs@) =~= Seq::empty());
            assert(Seq::<ConfigView>::empty() + outputs_from(rows, n as int) =~= outputs_from(
                rows,
                n as int,
            ));
        }
        while n < range.rows.len()
            invariant
                CONTENT_START_ROW <= n,
                rows == rows_of(range.rows@),
                self.listed(file@) == Some(configs_of(configs@) + outputs_from(rows, n as int)),
            decreases range.rows.len() - n,
        {
            let row = &range.rows[n];
            assert(rows[n as int] == row_of(*row));
            let domain = text_at(row, OUTPUT_NAME_COLUMN);
            if domain.as_str().unicode_len() != 0 {
                let level = if VALIDATION_LEVEL_COLUMN < row.len() {
                    assert(row_of(*row)[VALIDATION_LEVEL_COLUMN as int] == row[
                        VALIDATION_LEVEL_COLUMN as int
                    ]@);
                    Some(&row[VALIDATION_LEVEL_COLUMN])
                } else {
                    None
                };
                let qc = validation(level);
                let ghost before = configs_of(configs@);
                let ghost entry = ConfigView { name: domain@, supp: false, qc, order: n };
                configs.push(Config { name: domain, supp: false, qc, order: n });
                proof {
                    assert(configs_of(configs@) =~= before.push(entry));
                    assert(before + (seq![entry] + outputs_from(rows, n + 1)) =~= before.push(
                        entry,
                    ) + outputs_from(rows, n + 1));
                }
            }
            n = n + 1;
        }
        proof {
            assert(configs_of(configs@) + Seq::empty() =~= configs_of(configs@));
        }
        Ok(configs)
    }
}

} // verus!
