//! The catalog of the ADaM datasets, read from the study's specification.

use vstd::prelude::*;

use crate::error::InspectError;
use crate::sheet::{cell_of, row_of, rows_of, sheet_rows, CellView, SheetView, Workbook};
use crate::text::lowercase;

verus! {

/// The sheet that lists the datasets.
pub const CONTENT: &'static str = "CONTENT";

/// The column of the content sheet that holds the datasets' names.
pub const DOMAIN_COL_INDEX: usize = 0;

/// The row of the content sheet in which the list of datasets begins.
pub const TARGET_ROWS_START_INDEX: usize = 6;

/// The datasets that the rows of the content sheet from row `from` on
/// list, each in lower case. The list ends at the first row without a
/// name.
pub open spec fn domains_from(rows: Seq<Seq<CellView>>, from: int) -> Result<
    Seq<Seq<char>>,
    InspectError,
>
    decreases rows.len() - from,
{
    if from >= rows.len() || from < 0 {
        Ok(Seq::empty())
    } else {
        let cell = cell_of(rows[from], DOMAIN_COL_INDEX as int);
        if cell == CellView::Empty {
            Ok(Seq::empty())
        } else if cell.as_string() is None {
            Err(InspectError::UnreadableCell)
        } else {
            match domains_from(rows, from + 1) {
                Err(e) => Err(e),
                Ok(rest) => Ok(seq![lowercase(cell.as_string()->0)] + rest),
            }
        }
    }
}

/// The catalog that a specification holds.
pub open spec fn spec_of(book: Seq<SheetView>) -> Result<Seq<Seq<char>>, InspectError> {
    match sheet_rows(book, CONTENT@) {
        None => Err(InspectError::MissingSheet),
        Some(rows) => domains_from(rows, TARGET_ROWS_START_INDEX as int),
    }
}

/// What an unfinished reading amounts to: the datasets read so far
/// followed by those that the rest of the sheet lists.
pub open spec fn continued(read: Seq<Seq<char>>, rest: Result<Seq<Seq<char>>, InspectError>)
    -> Result<Seq<Seq<char>>, InspectError> {
    match rest {
        Ok(more) => Ok(read + more),
        Err(e) => Err(e),
    }
}

/// The views of a catalog.
pub open spec fn catalog_view(domains: Seq<String>) -> Seq<Seq<char>> {
    domains.map_values(|d: String| d@)
}

/// Reads the catalog of datasets from a specification: the name of each
/// in lower case. Fails when the workbook has no content sheet, or when a
/// cell that holds neither text nor number stands where a name is read.
pub fn read_spec(book: &Workbook) -> (r: Result<Vec<String>, InspectError>)
    ensures
        r is Ok <==> spec_of(book@) is Ok,
        r matches Ok(domains) ==> Ok::<Seq<Seq<char>>, InspectError>(catalog_view(domains@))
            == spec_of(book@),
        r matches Err(e) ==> Err::<Seq<Seq<char>>, InspectError>(e) == spec_of(book@),
{
    let mut domains: Vec<String> = Vec::new();
    let range = match book.worksheet_range(CONTENT) {
        Some(range) => range,
        None => {
            return Err(InspectError::MissingSheet);
        },
    };
    let ghost rows = rows_of(range.rows@);
    let mut n: usize = TARGET_ROWS_START_INDEX;
    proof {
        assert(catalog_view(domains@) =~= Seq::empty());
        match domains_from(rows, n as int) {
            Ok(more) => {
                assert(Seq::<Seq<char>>::empty() + more =~= more);
            },
            Err(_) => {},
        }
    }
    while n < range.rows.len()
        invariant
            TARGET_ROWS_START_INDEX <= n,
            rows == rows_of(range.rows@),
            spec_of(book@) == continued(catalog_view(domains@), domains_from(rows, n as int)),
        decreases range.rows.len() - n,
    {
        let row = &range.rows[n];
        assert(rows[n as int] == row_of(*row));
        proof {
            assert(catalog_view(domains@) + Seq::empty() =~= catalog_view(domains@));
        }
        if DOMAIN_COL_INDEX >= row.len() {
            return Ok(domains);
        }
        let cell = &row[DOMAIN_COL_INDEX];
        assert(row_of(*row)[DOMAIN_COL_INDEX as int] == cell@);
        if cell.is_empty() {
            return Ok(domains);
        }
        let domain = match cell.as_string() {
            Some(domain) => domain,
            None => {
                return Err(InspectError::UnreadableCell);
            },
        };
        let ghost before = catalog_view(domains@);
        domains.push(domain.as_str().to_lowercase());
        proof {
            let entry = lowercase(domain@);
            assert(catalog_view(domains@) =~= before.push(entry));
            match domains_from(rows, n + 1) {
                Ok(more) => {
                    assert(before + (seq![entry] + more) =~= before.push(entry) + more);
                },
                Err(_) => {},
            }
        }
        n = n + 1;
    }
    proof {
        assert(catalog_view(domains@) + Seq::empty() =~= catalog_view(domains@));
    }
    Ok(domains)
}

} // verus!
