//! The catalog of the SDTM domains.

use vstd::prelude::*;

use crate::sheet::{
    cell_of, row_of, rows_of, sheet_rows, text_at, Cell, CellView, Sheet, SheetView, Workbook,
};
use crate::text::{same, starts_with, trim, trimmed, uppercase};
use crate::v2::config::reader::{configs_of, continued, Config, ConfigReader, ConfigView};
use crate::v2::error::Error;

verus! {

/// The sheet that lists the domains.
pub const CONTENT: &'static str = "CONTENT";

/// What the name of a supplementary domain begins with, and what marks a
/// variable that goes to the supplementary domain.
pub const SUPP_PREFIX: &'static str = "SUPP";

/// The column of the content sheet that holds the domains' names.
pub const DOMAIN_COLUMN: usize = 0;

/// The row of the content sheet in which the list of domains begins.
pub const CONTENT_START_ROW: usize = 6;

/// The row of a domain's sheet in which its variables begin; the row
/// before it holds the headers.
pub const DOMAIN_START_ROW: usize = 13;

/// The header of the column that says where a variable goes.
pub const ALLOCATION_HEADER: &'static str = "变量归属";

/// The first column at or after `from` of a header row that is headed as
/// the column of allocations.
pub open spec fn allocation_column(header: Seq<CellView>, from: int) -> Option<int>
    decreases header.len() - from,
{
    if from >= header.len() || from < 0 {
        None
    } else if trimmed(header[from].text()) == ALLOCATION_HEADER@ {
        Some(from)
    } else {
        allocation_column(header, from + 1)
    }
}

/// Whether, from row `from` on, a variable goes to the supplementary
/// domain before a row leaves the column `col` of allocations blank. Rows
/// that end before that column are passed over.
pub open spec fn allocates_supp(rows: Seq<Seq<CellView>>, col: int, from: int) -> bool
    decreases rows.len() - from,
{
    if from >= rows.len() || from < 0 {
        false
    } else if 0 <= col < rows[from].len() {
        let cell = trimmed(rows[from][col].text());
        if cell.len() == 0 {
            false
        } else if cell == SUPP_PREFIX@ {
            true
        } else {
            allocates_supp(rows, col, from + 1)
        }
    } else {
        allocates_supp(rows, col, from + 1)
    }
}

/// Whether the sheet of a domain shows that the domain has a
/// supplementary domain.
pub open spec fn supp_detected(rows: Seq<Seq<CellView>>) -> bool {
    if rows.len() < DOMAIN_START_ROW {
        false
    } else {
        match allocation_column(rows[DOMAIN_START_ROW - 1], 0) {
            None => false,
            Some(col) => allocates_supp(rows, col, DOMAIN_START_ROW as int),
        }
    }
}

/// The domains that the rows of the content sheet from row `from` on
/// list. The list ends at the first row without a name; rows that name a
/// supplementary domain are passed over. `None` when a listed domain has
/// no sheet of its own.
pub open spec fn domains_from(book: Seq<SheetView>, rows: Seq<Seq<CellView>>, from: int) -> Option<
    Seq<ConfigView>,
>
    decreases rows.len() - from,
{
    if from >= rows.len() || from < 0 {
        Some(Seq::empty())
    } else {
        let domain = cell_of(rows[from], DOMAIN_COLUMN as int).text();
        if domain.len() == 0 {
            Some(Seq::empty())
        } else if SUPP_PREFIX@.is_prefix_of(domain) {
            domains_from(book, rows, from + 1)
        } else {
            match sheet_rows(book, uppercase(domain)) {
                None => None,
                Some(detail) => continued(
                    seq![
                        ConfigView {
                            name: domain,
                            supp: supp_detected(detail),
                            qc: true,
                            order: from as usize,
                        },
                    ],
                    domains_from(book, rows, from + 1),
                ),
            }
        }
    }
}

/// The reader of the catalog of the SDTM domains.
#[derive(Debug, Clone, Copy)]
pub struct SdtmConfigReader;

impl SdtmConfigReader {
    /// A reader of the catalog of the SDTM domains.
    pub fn new() -> SdtmConfigReader {
        SdtmConfigReader
    }
}

/// The column of a header row that is headed as the column of
/// allocations.
fn find_allocation_column(header: &Vec<Cell>) -> (r: Option<usize>)
    ensures
        r is Some <==> allocation_column(row_of(*header), 0) is Some,
        r matches Some(col) ==> allocation_column(row_of(*header), 0) == Some(col as int),
{
    let mut col: usize = 0;
    while col < header.len()
        invariant
            col <= header.len(),
            allocation_column(row_of(*header), 0) == allocation_column(row_of(*header), col as int),
        decreases header.len() - col,
    {
        let cell = header[col].text();
        assert(row_of(*header)[col as int] == header[col as int]@);
        let cell = trim(cell.as_str());
        if same(cell.as_str(), ALLOCATION_HEADER) {
            return Some(col);
        }
        col = col + 1;
    }
    None
}

/// Whether the sheet of a domain shows that the domain has a
/// supplementary domain: below the headers, a variable is allocated to
/// `SUPP` before the column of allocations goes blank.
pub fn detect_supp_domain(worksheet: &Sheet) -> (r: bool)
    ensures
        r == supp_detected(rows_of(worksheet.rows@)),
{
    if worksheet.rows.len() < DOMAIN_START_ROW {
        return false;
    }
    let ghost rows = rows_of(worksheet.rows@);
    assert(rows[DOMAIN_START_ROW - 1] == row_of(worksheet.rows[DOMAIN_START_ROW - 1]));
    let allocation = match find_allocation_column(&worksheet.rows[DOMAIN_START_ROW - 1]) {
        Some(col) => col,
        None => {
            return false;
        },
    };
    let mut index: usize = DOMAIN_START_ROW;
    while index < worksheet.rows.len()
        invariant
            DOMAIN_START_ROW <= index,
            rows == rows_of(worksheet.rows@),
            supp_detected(rows) == allocates_supp(rows, allocation as int, index as int),
        decreases worksheet.rows.len() - index,
    {
        let row = &worksheet.rows[index];
        assert(rows[index as int] == row_of(*row));
        if allocation < row.len() {
            assert(row_of(*row)[allocation as int] == row[allocation as int]@);
            let cell = row[allocation].text();
            let cell = trim(cell.as_str());
            if cell.as_str().unicode_len() == 0 {
                return false;
            }
            if same(cell.as_str(), SUPP_PREFIX) {
                return true;
            }
        }
        index = index + 1;
    }
    false
}

impl ConfigReader for SdtmConfigReader {
    open spec fn listed(&self, book: Seq<SheetView>) -> Option<Seq<ConfigView>> {
        match sheet_rows(book, CONTENT@) {
            None => None,
            Some(rows) => domains_from(book, rows, CONTENT_START_ROW as int),
        }
    }

    fn read(&self, file: &Workbook) -> (r: Result<Vec<Config>, Error>) {
        let mut configs: Vec<Config> = Vec::new();
        let range = match file.worksheet_range(CONTENT) {
            Some(range) => range,
            None => {
                return Err(Error::ReadConfigFailed);
            },
        };
        let ghost rows = rows_of(range.rows@);
        let mut n: usize = CONTENT_START_ROW;
        proof {
            assert(configs_of(configs@) =~= Seq::empty());
            match domains_from(file@, rows, n as int) {
                Some(more) => {
                    assert(Seq::<ConfigView>::empty() + more =~= more);
                },
                None => {},
            }
        }
        while n < range.rows.len()
            invariant
                CONTENT_START_ROW <= n,
                rows == rows_of(range.rows@),
                self.listed(file@) == continued(
                    configs_of(configs@),
                    domains_from(file@, rows, n as int),
                ),
            decreases range.rows.len() - n,
        {
            let row = &range.rows[n];
            assert(rows[n as int] == row_of(*row));
            let domain = text_at(row, DOMAIN_COLUMN);
            if domain.as_str().unicode_len() == 0 {
                proof {
                    assert(configs_of(configs@) + Seq::empty() =~= configs_of(configs@));
                }
                return Ok(configs);
            }
            if !starts_with(domain.as_str(), SUPP_PREFIX) {
                let upper = domain.as_str().to_uppercase();
                let detail = match file.worksheet_range(upper.as_str()) {
                    Some(detail) => detail,
                    None => {
                        return Err(Error::ReadConfigFailed);
                    },
                };
                let supp = detect_supp_domain(detail);
                let ghost before = configs_of(configs@);
                let ghost entry = ConfigView { name: domain@, supp, qc: true, order: n };
                configs.push(Config { name: domain, supp, qc: true, order: n });
                proof {
                    assert(configs_of(configs@) =~= before.push(entry));
                    match domains_from(file@, rows, n + 1) {
                        Some(more) => {
                            assert(before + (seq![entry] + more) =~= before.push(entry) + more);
                        },
                        None => {},
                    }
                }
            }
            n = n + 1;
        }
        proof {
            assert(configs_of(configs@) + Seq::empty() =~= configs_of(configs@));
        }
        Ok(configs)
    }
}

} // verus!
