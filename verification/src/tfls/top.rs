//! The catalog of the tables, figures and listings, read from the study's
//! table of planned outputs.

use vstd::prelude::*;

use crate::error::InspectError;
use crate::sheet::{cell_of, row_of, rows_of, sheet_rows, CellView, SheetView, Workbook};
use crate::text::same;

verus! {

/// The sheet that lists the outputs.
pub const TOP: &'static str = "top";

/// The column that holds the outputs' names.
pub const OUTPUT_NAME_COL_INDEX: usize = 4;

/// The row in which the list of outputs begins.
pub const TARGET_ROWS_START_INDEX: usize = 1;

/// The column that holds the level of validation.
pub const VALIDATION_LEVEL_INDEX: usize = 0;

/// The level of validation that asks for QC.
pub const QC_LEVEL: &'static str = "3";

/// The outputs that the rows from row `from` on list, each with the mark
/// that QC is asked for it. The list ends at the first row without a
/// name or without a level of validation.
pub open spec fn outputs_from(rows: Seq<Seq<CellView>>, from: int) -> Result<
    Seq<(Seq<char>, bool)>,
    InspectError,
>
    decreases rows.len() - from,
{
    if from >= rows.len() || from < 0 {
        Ok(Seq::empty())
    } else {
        let name = cell_of(rows[from], OUTPUT_NAME_COL_INDEX as int);
        let level = cell_of(rows[from], VALIDATION_LEVEL_INDEX as int);
        if name == CellView::Empty {
            Ok(Seq::empty())
        } else if name.as_string() is None {
            Err(InspectError::UnreadableCell)
        } else if level == CellView::Empty {
            Ok(Seq::empty())
        } else if level.as_string() is None {
            Err(InspectError::UnreadableCell)
        } else {
            match outputs_from(rows, from + 1) {
                Err(e) => Err(e),
                Ok(rest) => Ok(
                    seq![(name.as_string()->0, level.as_string()->0 == QC_LEVEL@)] + rest,
                ),
            }
        }
    }
}

/// The catalog that a table of planned outputs holds.
pub open spec fn top_of(book: Seq<SheetView>) -> Result<Seq<(Seq<char>, bool)>, InspectError> {
    match sheet_rows(book, TOP@) {
        None => Err(InspectError::MissingSheet),
        Some(rows) => outputs_from(rows, TARGET_ROWS_START_INDEX as int),
    }
}

/// What an unfinished reading amounts to: the outputs read so far followed
/// by those that the rest of the sheet lists.
pub open spec fn continued(
    read: Seq<(Seq<char>, bool)>,
    rest: Result<Seq<(Seq<char>, bool)>, InspectError>,
) -> Result<Seq<(Seq<char>, bool)>, InspectError> {
    match rest {
        Ok(more) => Ok(read + more),
        Err(e) => Err(e),
    }
}

/// The views of a catalog.
pub open spec fn catalog_view(outputs: Seq<(String, bool)>) -> Seq<(Seq<char>, bool)> {
    outputs.map_values(|d: (String, bool)| (d.0@, d.1))
}

/// Reads the catalog of outputs: the name of each and whether QC is asked
/// for it. Fails when the workbook has no sheet of outputs, or when a cell
/// that holds neither text nor number stands where a name or a level is
/// read.
pub fn read_top(book: &Workbook) -> (r: Result<Vec<(String, bool)>, InspectError>)
    ensures
        r is Ok <==> top_of(book@) is Ok,
        r matches Ok(outputs) ==> Ok::<Seq<(Seq<char>, bool)>, InspectError>(catalog_view(outputs@))
            == top_of(book@),
        r matches Err(e) ==> Err::<Seq<(Seq<char>, bool)>, InspectError>(e) == top_of(book@),
{
    let mut outputs: Vec<(String, bool)> = Vec::new();
    let range = match book.worksheet_range(TOP) {
        Some(range) => range,
        None => {
            return Err(InspectError::MissingSheet);
        },
    };
    let ghost rows = rows_of(range.rows@);
    let mut n: usize = TARGET_ROWS_START_INDEX;
    proof {
        assert(catalog_view(outputs@) =~= Seq::empty());
        match outputs_from(rows, n as int) {
            Ok(more) => {
                assert(Seq::<(Seq<char>, bool)>::empty() + more =~= more);
            },
            Err(_) => {},
        }
    }
    while n < range.rows.len()
        invariant
            TARGET_ROWS_START_INDEX <= n,
            rows == rows_of(range.rows@),
            top_of(book@) == continued(catalog_view(outputs@), outputs_from(rows, n as int)),
        decreases range.rows.len() - n,
    {
        let row = &range.rows[n];
        assert(rows[n as int] == row_of(*row));
        proof {
            assert(catalog_view(outputs@) + Seq::empty() =~= catalog_view(outputs@));
        }
        if OUTPUT_NAME_COL_INDEX >= row.len() {
            return Ok(outputs);
        }
        let cell = &row[OUTPUT_NAME_COL_INDEX];
        assert(row_of(*row)[OUTPUT_NAME_COL_INDEX as int] == cell@);
        if cell.is_empty() {
            return Ok(outputs);
        }
        let output = match cell.as_string() {
            Some(output) => output,
            None => {
                return Err(InspectError::UnreadableCell);
            },
        };
        let level = &row[VALIDATION_LEVEL_INDEX];
        assert(row_of(*row)[VALIDATION_LEVEL_INDEX as int] == level@);
        if level.is_empty() {
            return Ok(outputs);
        }
        let qc = match level.as_string() {
            Some(text) => same(text.as_str(), QC_LEVEL),
            None => {
                return Err(InspectError::UnreadableCell);
            },
        };
        let ghost before = catalog_view(outputs@);
        let ghost entry = (output@, qc);
        outputs.push((output, qc));
        proof {
            assert(catalog_view(outputs@) =~= before.push(entry));
            match outputs_from(rows, n + 1) {
                Ok(more) => {
                    assert(before + (seq![entry] + more) =~= before.push(entry) + more);
                },
                Err(_) => {},
            }
        }
        n = n + 1;
    }
    proof {
        assert(catalog_view(outputs@) + Seq::empty() =~= catalog_view(outputs@));
    }
    Ok(outputs)
}

} // verus!
