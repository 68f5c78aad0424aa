//! A workbook as the catalog readers see it: named sheets of rows of cells.

use vstd::prelude::*;

use crate::text::same;

verus! {

/// A cell of a sheet.
#[derive(Debug, Clone)]
pub enum Cell {
    /// Nothing was entered.
    Empty,
    /// A text.
    Text(String),
    /// A number with a fraction part, as it is written out; `whole` holds
    /// the number when it is an integer.
    Float { text: String, whole: Option<i64> },
    /// An integer, as it is written out.
    Int { text: String },
    /// Anything else: a truth value, a date, an error.
    Other,
}

/// The mathematical content of a [`Cell`].
pub enum CellView {
    Empty,
    Text(Seq<char>),
    Float { text: Seq<char>, whole: Option<i64> },
    Int { text: Seq<char> },
    Other,
}

impl View for Cell {
    type V = CellView;

    open spec fn view(&self) -> CellView {
        match *self {
            Cell::Empty => CellView::Empty,
            Cell::Text(s) => CellView::Text(s@),
            Cell::Float { text, whole } => CellView::Float { text: text@, whole },
            Cell::Int { text } => CellView::Int { text: text@ },
            Cell::Other => CellView::Other,
        }
    }
}

impl CellView {
    /// The cell written out, for a cell that holds a text or a number.
    pub open spec fn as_string(self) -> Option<Seq<char>> {
        match self {
            CellView::Text(s) => Some(s),
            CellView::Float { text, .. } => Some(text),
            CellView::Int { text } => Some(text),
            _ => None,
        }
    }

    /// The cell written out, or the empty text for a cell that cannot be.
    pub open spec fn text(self) -> Seq<char> {
        match self.as_string() {
            Some(s) => s,
            None => Seq::empty(),
        }
    }
}

/// The views of the cells of a row.
pub open spec fn row_of(row: Vec<Cell>) -> Seq<CellView> {
    row@.map_values(|c: Cell| c@)
}

/// The views of the rows of a sheet.
pub open spec fn rows_of(rows: Seq<Vec<Cell>>) -> Seq<Seq<CellView>> {
    rows.map_values(|r: Vec<Cell>| row_of(r))
}

/// The cell in column `col` of a row, or an empty cell where the row ends
/// before that column.
pub open spec fn cell_of(row: Seq<CellView>, col: int) -> CellView {
    if 0 <= col < row.len() {
        row[col]
    } else {
        CellView::Empty
    }
}

/// A sheet: its name and its rows, from the first used row on.
#[derive(Debug, Clone)]
pub struct Sheet {
    pub name: String,
    pub rows: Vec<Vec<Cell>>,
}

/// The mathematical content of a [`Sheet`].
pub struct SheetView {
    pub name: Seq<char>,
    pub rows: Seq<Seq<CellView>>,
}

impl View for Sheet {
    type V = SheetView;

    open spec fn view(&self) -> SheetView {
        SheetView { name: self.name@, rows: rows_of(self.rows@) }
    }
}

/// A workbook: its sheets.
#[derive(Debug, Clone)]
pub struct Workbook {
    pub sheets: Vec<Sheet>,
}

impl View for Workbook {
    type V = Seq<SheetView>;

    open spec fn view(&self) -> Seq<SheetView> {
        self.sheets@.map_values(|s: Sheet| s@)
    }
}

/// The index of the first sheet of a name at or after `from`, if there is
/// one.
pub open spec fn sheet_index(book: Seq<SheetView>, name: Seq<char>, from: int) -> Option<int>
    decreases book.len() - from,
{
    if from >= book.len() {
        None
    } else if book[from].name == name {
        Some(from)
    } else {
        sheet_index(book, name, from + 1)
    }
}

/// The rows of the first sheet of a name, if the workbook has one.
pub open spec fn sheet_rows(book: Seq<SheetView>, name: Seq<char>) -> Option<Seq<Seq<CellView>>> {
    match sheet_index(book, name, 0) {
        Some(i) => Some(book[i].rows),
        None => None,
    }
}

impl Cell {
    /// Whether nothing was entered in the cell.
    pub fn is_empty(&self) -> (r: bool)
        ensures
            r == (self@ == CellView::Empty),
    {
        match self {
            Cell::Empty => true,
            _ => false,
        }
    }

    /// The cell written out, for a cell that holds a text or a number.
    pub fn as_string(&self) -> (r: Option<String>)
        ensures
            r is Some <==> self@.as_string() is Some,
            r matches Some(s) ==> Some(s@) == self@.as_string(),
    {
        match self {
            Cell::Text(s) => Some(s.clone()),
            Cell::Float { text, .. } => Some(text.clone()),
            Cell::Int { text } => Some(text.clone()),
            _ => None,
        }
    }

    /// The cell written out, or the empty text for a cell that cannot be.
    pub fn text(&self) -> (r: String)
        ensures
            r@ == self@.text(),
    {
        match self.as_string() {
            Some(s) => s,
            None => String::new(),
        }
    }
}

/// The text of the cell in column `col` of a row; empty where the row ends
/// before that column.
pub fn text_at(row: &Vec<Cell>, col: usize) -> (r: String)
    ensures
        r@ == cell_of(row_of(*row), col as int).text(),
{
    if col < row.len() {
        row[col].text()
    } else {
        String::new()
    }
}

impl Workbook {
    /// The first sheet of a name.
    pub fn worksheet_range(&self, name: &str) -> (r: Option<&Sheet>)
        ensures
            r is Some <==> sheet_rows(self@, name@) is Some,
            r matches Some(s) ==> Some(rows_of(s.rows@)) == sheet_rows(self@, name@),
    {
        let mut i: usize = 0;
        while i < self.sheets.len()
            invariant
                i <= self.sheets.len(),
                sheet_index(self@, name@, 0) == sheet_index(self@, name@, i as int),
            decreases self.sheets.len() - i,
        {
            if same(self.sheets[i].name.as_str(), name) {
                return Some(&self.sheets[i]);
            }
            i = i + 1;
        }
        None
    }
}

} // verus!
