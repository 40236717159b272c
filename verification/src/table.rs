//! A listing as a table: one heading row, then one row for each record, with
//! a rounded border and a colour for the heading and for three of the columns.

use crate::entry::{EntryView, FileEntry};
use crate::listing::entries_view;
use crate::size::{size_cell, size_cell_text};
use crate::text::texts;
use tabled::builder::Builder;
use tabled::settings::object::{Columns, Rows};
use tabled::settings::{Color, Style};
use vstd::prelude::*;

verus! {

/// The number of columns.
pub const COLUMNS: usize = 5;

/// The heading row: the columns in their fixed order.
pub open spec fn heading_cells() -> Seq<Seq<char>> {
    seq!["name"@, "e_type"@, "size"@, "modifiled"@, "path"@]
}

/// The row of a record, with its size column already written.
pub open spec fn row_cells(entry: EntryView, size: Seq<char>) -> Seq<Seq<char>> {
    seq![entry.name, entry.kind.label_text(), size, entry.modified, entry.path]
}

/// The cells of the table of a listing: the heading, then the row of each
/// record in order, its size written as `clarity` asks.
pub open spec fn table_cells(entries: Seq<EntryView>, clarity: bool) -> Seq<Seq<Seq<char>>> {
    seq![heading_cells()] + entries.map_values(
        |e: EntryView| row_cells(e, size_cell_text(e.size, clarity)),
    )
}

/// The cells of some rows, each as a sequence of characters.
pub open spec fn cells_view(rows: Seq<Vec<String>>) -> Seq<Seq<Seq<char>>> {
    rows.map_values(|row: Vec<String>| texts(row@))
}

/// What tabled draws for rows of five cells, the first of them the heading:
/// the grid in the style `rounded`, the first column in bright cyan, the third
/// in bright magenta, the fourth in bright red, and the heading row in bright
/// green, with no newline after the last line.
pub uninterp spec fn styled_table_text(cells: Seq<Seq<Seq<char>>>) -> Seq<char>;

/// Builds the table with `tabled::builder::Builder::from` and `Builder::build`,
/// applies `Style::rounded` with `Table::with`, colours the columns and the
/// heading with `Table::modify` (`Columns::first`, `Columns::one(2)`,
/// `Columns::one(3)` and `Rows::first` with the matching `Color` constants),
/// and collects what the table displays.
///
/// Trusted: for at least one row, all rows five cells wide, the text is the
/// one that `styled_table_text` names for the cells.
#[verifier::external_body]
fn styled_table(rows: Vec<Vec<String>>) -> (r: String)
    requires
        rows@.len() > 0,
        forall|i: int| 0 <= i < rows@.len() ==> (#[trigger] rows@[i])@.len() == COLUMNS,
    ensures
        r@ == styled_table_text(cells_view(rows@)),
{
    let mut table = Builder::from(rows).build();
    table.with(Style::rounded());
    table.modify(Columns::first(), Color::FG_BRIGHT_CYAN);
    table.modify(Columns::one(2), Color::FG_BRIGHT_MAGENTA);
    table.modify(Columns::one(3), Color::FG_BRIGHT_RED);
    table.modify(Rows::first(), Color::FG_BRIGHT_GREEN);
    table.to_string()
}

/// Writes the heading row.
pub fn heading_row() -> (r: Vec<String>)
    ensures
        texts(r@) == heading_cells(),
        r@.len() == COLUMNS,
{
    let mut r: Vec<String> = Vec::new();
    r.push("name".to_owned());
    r.push("e_type".to_owned());
    r.push("size".to_owned());
    r.push("modifiled".to_owned());
    r.push("path".to_owned());
    r
}

/// Writes the row of a record around a size column that is already written.
pub fn table_row(entry: &FileEntry, size: String) -> (r: Vec<String>)
    ensures
        texts(r@) == row_cells(entry@, size@),
        r@.len() == COLUMNS,
{
    let mut r: Vec<String> = Vec::new();
    r.push(entry.name().to_owned());
    r.push(entry.kind().label().to_owned());
    r.push(size);
    r.push(entry.modified().to_owned());
    r.push(entry.path().to_owned());
    r
}

/// Writes the rows of the table of a listing, the heading first.
pub fn table_rows(entries: &Vec<FileEntry>, clarity: bool) -> (r: Vec<Vec<String>>)
    ensures
        cells_view(r@) == table_cells(entries_view(entries@), clarity),
        r@.len() == entries@.len() + 1,
        forall|i: int| 0 <= i < r@.len() ==> (#[trigger] r@[i])@.len() == COLUMNS,
{
    let mut rows: Vec<Vec<String>> = Vec::new();
    rows.push(heading_row());
    let mut i: usize = 0;
    while i < entries.len()
        invariant
            i <= entries.len(),
            rows@.len() == i + 1,
            forall|k: int| 0 <= k < rows@.len() ==> (#[trigger] rows@[k])@.len() == COLUMNS,
            cells_view(rows@) == table_cells(entries_view(entries@).take(i as int), clarity),
        decreases entries.len() - i,
    {
        let entry = &entries[i];
        let row = table_row(entry, size_cell(entry, clarity));
        let ghost before = rows@;
        rows.push(row);
        proof {
            let shorter = table_cells(entries_view(entries@).take(i as int), clarity);
            let longer = table_cells(entries_view(entries@).take(i + 1), clarity);
            assert forall|k: int| 0 <= k < longer.len() implies cells_view(rows@)[k]
                == longer[k] by {
                if k <= i {
                    assert(cells_view(before)[k] == shorter[k]);
                }
            }
        }
        i += 1;
    }
    rows
}

/// Draws the table of a listing.
pub fn render_table(entries: &Vec<FileEntry>, clarity: bool) -> (r: String)
    ensures
        r@ == styled_table_text(table_cells(entries_view(entries@), clarity)),
{
    styled_table(table_rows(entries, clarity))
}

} // verus!
