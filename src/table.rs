//! The table form of a listing: a header row and one row per record, in the
//! columns Name, Size (Bytes), Last Modified and Type.
use vstd::prelude::*;

use crate::decimal::{decimal, decimal_text};
use crate::entry::{entries_view, file_type_label, EntryView, FileEntry};
use tabled::builder::Builder;
use tabled::settings::object::{Columns, Rows};
use tabled::settings::{Color, Style};

verus! {

/// The cells of a table, row by row.
pub open spec fn cells_view(rows: Seq<Vec<String>>) -> Seq<Seq<Seq<char>>> {
    rows.map_values(|row: Vec<String>| row@.map_values(|c: String| c@))
}

/// What tabled draws of the given cells, the first row taken as the header,
/// with rounded borders, the first three columns and the header in colour.
pub uninterp spec fn styled_table_of(rows: Seq<Seq<Seq<char>>>) -> Seq<char>;

/// Relies on tabled's `Builder::from` and `Table` with `Style::rounded()`,
/// foreground colours set by `Table::modify` (bright cyan, magenta and yellow
/// on the first three columns, bright green on the first row), and its
/// `Display`.
#[verifier::external_body]
fn styled_table(rows: Vec<Vec<String>>) -> (r: String)
    ensures
        r@ == styled_table_of(cells_view(rows@)),
{
    let mut table = Builder::from(rows).build();
    table.with(Style::rounded());
    table.modify(Columns::first(), Color::FG_BRIGHT_CYAN);
    table.modify(Columns::single(1), Color::FG_BRIGHT_MAGENTA);
    table.modify(Columns::single(2), Color::FG_BRIGHT_YELLOW);
    table.modify(Rows::first(), Color::FG_BRIGHT_GREEN);
    table.to_string()
}

pub open spec fn header_row() -> Seq<Seq<char>> {
    seq!["Name"@, "Size (Bytes)"@, "Last Modified"@, "Type"@]
}

/// The cells of one record: its name, its size in decimal, its date, its kind.
pub open spec fn entry_row(e: EntryView) -> Seq<Seq<char>> {
    seq![e.name, decimal(e.len_bytes as nat), e.last_modified, file_type_label(e.file_type)]
}

/// The header row followed by one row per record, in order.
pub open spec fn table_cells(es: Seq<EntryView>) -> Seq<Seq<Seq<char>>> {
    seq![header_row()] + es.map_values(|e: EntryView| entry_row(e))
}

fn header_cells() -> (r: Vec<String>)
    ensures
        r@.map_values(|c: String| c@) == header_row(),
{
    let mut r: Vec<String> = Vec::new();
    r.push(String::from_str("Name"));
    r.push(String::from_str("Size (Bytes)"));
    r.push(String::from_str("Last Modified"));
    r.push(String::from_str("Type"));
    assert(r@.map_values(|c: String| c@) =~= header_row());
    r
}

fn entry_cells(e: &FileEntry) -> (r: Vec<String>)
    ensures
        r@.map_values(|c: String| c@) == entry_row(e@),
{
    let mut r: Vec<String> = Vec::new();
    r.push(e.name.clone());
    r.push(decimal_text(e.len_bytes));
    r.push(e.last_modified.clone());
    r.push(String::from_str(e.file_type.as_str()));
    assert(r@.map_values(|c: String| c@) =~= entry_row(e@));
    r
}

/// The cells of the table of a listing: the header row, then one row per
/// record in the order of the records.
pub fn table_rows(entries: &Vec<FileEntry>) -> (r: Vec<Vec<String>>)
    ensures
        cells_view(r@) == table_cells(entries_view(entries@)),
{
    let ghost es = entries_view(entries@);
    let mut rows: Vec<Vec<String>> = Vec::new();
    rows.push(header_cells());
    let mut i: usize = 0;
    while i < entries.len()
        invariant
            i <= entries@.len(),
            es == entries_view(entries@),
            cells_view(rows@) == table_cells(es.take(i as int)),
        decreases entries@.len() - i,
    {
        let ghost before = rows@;
        let row = entry_cells(&entries[i]);
        rows.push(row);
        proof {
            assert(cells_view(rows@) =~= cells_view(before).push(entry_row(es[i as int])));
            assert(es.take(i as int + 1) =~= es.take(i as int).push(es[i as int]));
            assert(table_cells(es.take(i as int + 1)) =~= table_cells(es.take(i as int)).push(
                entry_row(es[i as int]),
            ));
        }
        i = i + 1;
    }
    assert(es.take(es.len() as int) =~= es);
    rows
}

/// Draws the table of a listing.
pub fn render_table(entries: &Vec<FileEntry>) -> (r: String)
    ensures
        r@ == styled_table_of(table_cells(entries_view(entries@))),
{
    styled_table(table_rows(entries))
}

} // verus!
