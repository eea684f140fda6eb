//! Where the spreadsheet store keeps its data, and which cell a read reports.

use vstd::prelude::*;
use crate::json::{display_value, value_text};

verus! {

/// The settings of the spreadsheet store.
#[derive(Debug)]
pub struct Config {
    pub priv_key: String,
    pub sheet_id: String,
    pub deposit_range_input: String,
    pub deposit_range_output: String,
}

impl Config {
    /// The settings in use.
    pub fn new() -> (c: Config)
        ensures
            c.priv_key@ == "priv_key.json"@,
            c.sheet_id@ == "1PNWBP6onxP6F0zMVxNE-GeDQiejbbV9i4-eBXbMJYKY"@,
            c.deposit_range_input@ == "A2:B"@,
            c.deposit_range_output@ == "A2:B"@,
    {
        Config {
            priv_key: "priv_key.json".to_string(),
            sheet_id: "1PNWBP6onxP6F0zMVxNE-GeDQiejbbV9i4-eBXbMJYKY".to_string(),
            deposit_range_input: "A2:B".to_string(),
            deposit_range_output: "A2:B".to_string(),
        }
    }
}

/// The cell that a read of the sheet reports: the last cell of the last row
/// that has any, or the empty text when no row has a cell.
pub open spec fn last_cell(rows: Seq<Seq<Seq<char>>>) -> Seq<char>
    decreases rows.len(),
{
    if rows.len() == 0 {
        Seq::empty()
    } else if rows.last().len() > 0 {
        rows.last().last()
    } else {
        last_cell(rows.drop_last())
    }
}

/// The JSON texts of the cells, row by row.
pub open spec fn cell_texts(rows: Seq<Vec<serde_json::Value>>) -> Seq<Seq<Seq<char>>> {
    rows.map_values(|row: Vec<serde_json::Value>| row@.map_values(|v: serde_json::Value| value_text(v)))
}

/// Reports the cell that a read of the sheet gives: the JSON text of the last
/// cell of the last row that has any, or the empty text.
pub fn last_cell_text(rows: &Vec<Vec<serde_json::Value>>) -> (r: String)
    ensures
        r@ == last_cell(cell_texts(rows@)),
{
    let mut val = String::new();
    let n = rows.len();
    let mut i: usize = 0;
    while i < n
        invariant
            n == rows@.len(),
            i <= n,
            val@ == last_cell(cell_texts(rows@).take(i as int)),
        decreases n - i,
    {
        let row = &rows[i];
        assert(cell_texts(rows@).take(i + 1).drop_last() =~= cell_texts(rows@).take(i as int));
        assert(cell_texts(rows@).take(i + 1).last() == row@.map_values(|v: serde_json::Value| value_text(v)));
        let k = row.len();
        if k > 0 {
            val = display_value(&row[k - 1]);
        }
        i = i + 1;
    }
    assert(cell_texts(rows@).take(n as int) =~= cell_texts(rows@));
    val
}

} // verus!
