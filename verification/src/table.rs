//! Tabular result carrier: a table kind, ordered column headers, and rows of
//! display-ready cells.

use vstd::prelude::*;
use vstd::string::StringExecFns;

verus! {

/// Kind of table being reported.
#[derive(Clone, Copy, Debug, PartialEq, Eq, Structural)]
pub enum TableType {
    ElfSectionHeader,
    ElfSymbols,
    ElfDynamicSymbols,
    Hex,
}

impl TableType {
    /// Human-readable heading for the table kind.
    pub fn label(&self) -> (s: String)
        ensures
            *self == TableType::ElfSectionHeader ==> s@ == "ELF section headers"@,
            *self == TableType::ElfSymbols ==> s@ == "ELF symbol table"@,
            *self == TableType::ElfDynamicSymbols ==> s@ == "ELF dynamic symbols table"@,
            *self == TableType::Hex ==> s@ == "HEX table"@,
    {
        match self {
            TableType::ElfSectionHeader => String::from_str("ELF section headers"),
            TableType::ElfSymbols => String::from_str("ELF symbol table"),
            TableType::ElfDynamicSymbols => String::from_str("ELF dynamic symbols table"),
            TableType::Hex => String::from_str("HEX table"),
        }
    }
}

/// Interaction tag carried by a row; reserved for future drill-down and
/// currently always the inert tag.
#[derive(Clone, Copy, Debug, PartialEq, Eq, Structural)]
pub enum RowAction {
    Inert,
    View,
}

/// One table row: ordered display cells plus its action tag.
#[derive(Clone, Debug)]
pub struct Row {
    pub action: RowAction,
    pub content: Vec<String>,
}

impl Row {
    /// The cell texts of the row, in order.
    pub open spec fn cells(&self) -> Seq<Seq<char>> {
        self.content.deep_view()
    }
}

/// A decoded result table: its kind, column headers, and rows.
#[derive(Clone, Debug)]
pub struct Table {
    pub table_type: TableType,
    pub headline: Vec<String>,
    pub rows: Vec<Row>,
}

impl Table {
    /// Builds a table from a kind tag, header labels, and prepared rows.
    /// The headers are copied in order; the rows are taken as given.
    pub fn new(table_type: TableType, headers: &[&str], rows: Vec<Row>) -> (t: Table)
        ensures
            t.table_type == table_type,
            t.headline.deep_view() == headers.deep_view(),
            t.rows == rows,
    {
        let mut headline: Vec<String> = Vec::new();
        let n = headers.len();
        for i in 0..n
            invariant
                n == headers.deep_view().len(),
                headline.deep_view() =~~= headers.deep_view().take(i as int),
        {
            let h = String::from_str(headers[i]);
            proof {
                assert(h@ == headers@[i as int]@);
                assert(headline.deep_view().len() == i);
                assert(headline@.len() == i);
            }
            headline.push(h);
            proof {
                assert(headline@.len() == i + 1);
                assert(headline@[i as int]@ == headers@[i as int]@);
                assert forall|j: int| 0 <= j <= i implies headline.deep_view()[j]
                    == headers.deep_view()[j] by {
                    if j < i {
                        assert(headline.deep_view()[j] == headers.deep_view().take(i as int)[j]);
                    }
                }
                assert(headline.deep_view() =~~= headers.deep_view().take(i + 1));
            }
        }
        proof {
            assert(headline.deep_view() =~~= headers.deep_view());
        }
        Table { table_type, headline, rows }
    }
}

/// Whether `rows` carries exactly the cell texts of `cells`, in order, with
/// every row inert.
pub open spec fn rows_match(rows: Seq<Row>, cells: Seq<Seq<Seq<char>>>) -> bool {
    &&& rows.len() == cells.len()
    &&& forall|i: int|
        0 <= i < rows.len() ==> rows[i].action == RowAction::Inert && #[trigger] rows[i].cells()
            == cells[i]
}

/// Whether two row lists carry identical content: equal length, and cell
/// texts and action tags equal row for row.
pub open spec fn rows_content_equal(a: Seq<Row>, b: Seq<Row>) -> bool {
    &&& a.len() == b.len()
    &&& forall|j: int|
        0 <= j < a.len() ==> #[trigger] a[j].cells() == b[j].cells() && a[j].action == b[j].action
}

} // verus!
