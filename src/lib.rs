//! Listing of the immediate children of a directory, as records of name,
//! size, modification date and kind, rendered as a JSON array or a table.
use vstd::prelude::*;

pub mod date;
pub mod decimal;
pub mod entry;
pub mod json;
pub mod laws;
pub mod resolve;
pub mod table;

use crate::entry::{entries_view, EntryView, FileEntry};
use crate::json::{json_output, render_json};
use crate::table::{render_table, styled_table_of, table_cells};

verus! {

/// What is printed for a listing: its JSON form or its table.
pub open spec fn listing_output(es: Seq<EntryView>, json: bool) -> Seq<char> {
    if json {
        json_output(es)
    } else {
        styled_table_of(table_cells(es))
    }
}

/// Renders a listing as JSON where `json` holds, else as a table.
pub fn present(entries: &Vec<FileEntry>, json: bool) -> (r: String)
    ensures
        r@ == listing_output(entries_view(entries@), json),
{
    if json {
        render_json(entries)
    } else {
        render_table(entries)
    }
}

} // verus!
