//! The catalog of the SDTM domains, read from the study's specification.

use vstd::prelude::*;

use crate::error::InspectError;
use crate::sheet::{cell_of, row_of, rows_of, sheet_rows, CellView, SheetView, Workbook};
use crate::text::{lowercase, same, starts_with};

verus! {

/// The sheet that lists the domains.
pub const CONTENT: &'static str = "CONTENT";

/// What the name of a supplementary domain begins with, and what marks a
/// variable that goes to the supplementary domain.
pub const SUPP_PREFIX: &'static str = "SUPP";

/// The column of the content sheet that holds the domains' names.
pub const DOMAIN_COL_INDEX: usize = 0;

/// The row of the content sheet in which the list of domains begins.
pub const TARGET_ROWS_START_INDEX: usize = 6;

/// The column of a domain's sheet that says where a variable goes.
pub const VAR_BELONG_COL_INDEX: usize = 9;

/// Whether a row of the content sheet names a supplementary domain. Such a
/// row is passed over: whether a domain has a supplementary domain shows in
/// the domain's own sheet.
pub open spec fn is_supp_name(domain: Seq<char>) -> bool {
    SUPP_PREFIX@.is_prefix_of(domain)
}

/// Whether a row of a domain's sheet sends a variable to the supplementary
/// domain.
pub open spec fn row_is_supp(row: Seq<CellView>) -> bool {
    VAR_BELONG_COL_INDEX < row.len() && row[VAR_BELONG_COL_INDEX as int].as_string() == Some(
        SUPP_PREFIX@,
    )
}

/// Whether a cell that the reader has to write out cannot be: it holds
/// neither a text nor a number, and is not empty.
pub open spec fn unreadable(cell: CellView) -> bool {
    cell != CellView::Empty && cell.as_string() is None
}

/// Whether a row of a domain's sheet cannot be read.
pub open spec fn row_unreadable(row: Seq<CellView>) -> bool {
    VAR_BELONG_COL_INDEX < row.len() && unreadable(row[VAR_BELONG_COL_INDEX as int])
}

/// Whether, going through the rows below `upto` from the last one up, a
/// row that sends a variable to the supplementary domain comes before any
/// row that cannot be read. `Err` when a row that cannot be read comes
/// first.
pub open spec fn supp_in(rows: Seq<Seq<CellView>>, upto: int) -> Result<bool, InspectError>
    decreases upto,
{
    if upto <= 0 {
        Ok(false)
    } else if row_unreadable(rows[upto - 1]) {
        Err(InspectError::UnreadableCell)
    } else if row_is_supp(rows[upto - 1]) {
        Ok(true)
    } else {
        supp_in(rows, upto - 1)
    }
}

/// Whether a domain has a supplementary domain: its sheet, if the workbook
/// has one, sends a variable there.
pub open spec fn has_supp(book: Seq<SheetView>, domain: Seq<char>) -> Result<bool, InspectError> {
    match sheet_rows(book, domain) {
        Some(rows) => supp_in(rows, rows.len() as int),
        None => Ok(false),
    }
}

/// The domains that the rows of the content sheet from row `from` on list,
/// each in lower case with the mark of its supplementary domain. The list
/// ends at the first row without a name.
pub open spec fn domains_from(book: Seq<SheetView>, rows: Seq<Seq<CellView>>, from: int) -> Result<
    Seq<(Seq<char>, bool)>,
    InspectError,
>
    decreases rows.len() - from,
{
    if from >= rows.len() || from < 0 {
        Ok(Seq::empty())
    } else {
        let cell = cell_of(rows[from], DOMAIN_COL_INDEX as int);
        if cell == CellView::Empty {
            Ok(Seq::empty())
        } else if cell.as_string() is None {
            Err(InspectError::UnreadableCell)
        } else {
            let domain = cell.as_string()->0;
            if is_supp_name(domain) {
                domains_from(book, rows, from + 1)
            } else {
                match has_supp(book, domain) {
                    Err(e) => Err(e),
                    Ok(supp) => match domains_from(book, rows, from + 1) {
                        Err(e) => Err(e),
                        Ok(rest) => Ok(seq![(lowercase(domain), supp)] + rest),
                    },
                }
            }
        }
    }
}

/// The catalog that a specification holds.
pub open spec fn spec_of(book: Seq<SheetView>) -> Result<Seq<(Seq<char>, bool)>, InspectError> {
    match sheet_rows(book, CONTENT@) {
        None => Err(InspectError::MissingSheet),
        Some(rows) => domains_from(book, rows, TARGET_ROWS_START_INDEX as int),
    }
}

/// What an unfinished reading amounts to: the domains read so far followed
/// by those that the rest of the sheet lists.
pub open spec fn continued(
    read: Seq<(Seq<char>, bool)>,
    rest: Result<Seq<(Seq<char>, bool)>, InspectError>,
) -> Result<Seq<(Seq<char>, bool)>, InspectError> {
    match rest {
        Ok(more) => Ok(read + more),
        Err(e) => Err(e),
    }
}

/// The views of a catalog.
pub open spec fn catalog_view(domains: Seq<(String, bool)>) -> Seq<(Seq<char>, bool)> {
    domains.map_values(|d: (String, bool)| (d.0@, d.1))
}

/// Whether the sheet of a domain sends a variable to the supplementary
/// domain.
fn detect_supp(book: &Workbook, domain: &str) -> (r: Result<bool, InspectError>)
    ensures
        r == has_supp(book@, domain@),
{
    let sheet = match book.worksheet_range(domain) {
        Some(sheet) => sheet,
        None => {
            return Ok(false);
        },
    };
    let mut i: usize = sheet.rows.len();
    while i > 0
        invariant
            i <= sheet.rows.len(),
            sheet_rows(book@, domain@) == Some(rows_of(sheet.rows@)),
            supp_in(rows_of(sheet.rows@), sheet.rows.len() as int) == supp_in(
                rows_of(sheet.rows@),
                i as int,
            ),
        decreases i,
    {
        let row = &sheet.rows[i - 1];
        assert(rows_of(sheet.rows@)[i - 1] == row_of(*row));
        if VAR_BELONG_COL_INDEX < row.len() {
            let cell = &row[VAR_BELONG_COL_INDEX];
            assert(row_of(*row)[VAR_BELONG_COL_INDEX as int] == cell@);
            if !cell.is_empty() {
                match cell.as_string() {
                    None => {
                        return Err(InspectError::UnreadableCell);
                    },
                    Some(text) => {
                        if same(text.as_str(), SUPP_PREFIX) {
                            return Ok(true);
                        }
                    },
                }
            }
        }
        i = i - 1;
    }
    Ok(false)
}

/// Reads the catalog of domains from a specification: for each domain its
/// name in lower case and whether it has a supplementary domain. Fails
/// when the workbook has no content sheet, or when a cell that holds
/// neither text nor number stands where a name or a mark is read.
pub fn read_spec(book: &Workbook) -> (r: Result<Vec<(String, bool)>, InspectError>)
    ensures
        r is Ok <==> spec_of(book@) is Ok,
        r matches Ok(domains) ==> Ok::<Seq<(Seq<char>, bool)>, InspectError>(catalog_view(domains@))
            == spec_of(book@),
        r matches Err(e) ==> Err::<Seq<(Seq<char>, bool)>, InspectError>(e) == spec_of(book@),
{
    let mut domains: Vec<(String, bool)> = Vec::new();
    let range = match book.worksheet_range(CONTENT) {
        Some(range) => range,
        None => {
            return Err(InspectError::MissingSheet);
        },
    };
    let ghost rows = rows_of(range.rows@);
    let mut n: usize = TARGET_ROWS_START_INDEX;
    proof {
        assert(catalog_view(domains@) =~= Seq::empty());
        let rest = domains_from(book@, rows, n as int);
        match rest {
            Ok(more) => {
                assert(Seq::<(Seq<char>, bool)>::empty() + more =~= more);
            },
            Err(_) => {},
        }
    }
    while n < range.rows.len()
        invariant
            TARGET_ROWS_START_INDEX <= n,
            rows == rows_of(range.rows@),
            spec_of(book@) == continued(catalog_view(domains@), domains_from(book@, rows, n as int)),
        decreases range.rows.len() - n,
    {
        let row = &range.rows[n];
        assert(rows[n as int] == row_of(*row));
        if DOMAIN_COL_INDEX >= row.len() {
            proof {
                assert(catalog_view(domains@) + Seq::empty() =~= catalog_view(domains@));
            }
            return Ok(domains);
        }
        let cell = &row[DOMAIN_COL_INDEX];
        assert(row_of(*row)[DOMAIN_COL_INDEX as int] == cell@);
        if cell.is_empty() {
            proof {
                assert(catalog_view(domains@) + Seq::empty() =~= catalog_view(domains@));
            }
            return Ok(domains);
        }
        let domain = match cell.as_string() {
            Some(domain) => domain,
            None => {
                return Err(InspectError::UnreadableCell);
            },
        };
        if !skip_supp(domain.as_str()) {
            let supp = match detect_supp(book, domain.as_str()) {
                Ok(supp) => supp,
                Err(e) => {
                    return Err(e);
                },
            };
            let ghost before = catalog_view(domains@);
            let lower = domain.as_str().to_lowercase();
            domains.push((lower, supp));
            proof {
                let entry = (lowercase(domain@), supp);
                assert(catalog_view(domains@) =~= before.push(entry));
                match domains_from(book@, rows, n + 1) {
                    Ok(more) => {
                        assert(before + (seq![entry] + more) =~= before.push(entry) + more);
                    },
                    Err(_) => {},
                }
            }
        }
        n = n + 1;
    }
    proof {
        assert(catalog_view(domains@) + Seq::empty() =~= catalog_view(domains@));
    }
    Ok(domains)
}

/// Whether a name of the content sheet is that of a supplementary domain.
pub fn skip_supp(domain: &str) -> (r: bool)
    ensures
        r == is_supp_name(domain@),
{
    starts_with(domain, SUPP_PREFIX)
}

} // verus!
