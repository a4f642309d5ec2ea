//! The row materializer: runs one query, renders every cell, and hands the
//! rows out once, front to back.

use vstd::prelude::*;
use crate::engine;
use crate::row::Row;
use crate::row::pair_view;
use crate::value::CellValue;
use crate::value::render_cell;
use crate::value::rendered;

verus! {

/// The views of a list of column names.
pub open spec fn names_view(names: Seq<String>) -> Seq<Seq<char>> {
    names.map_values(|s: String| s@)
}

/// The views of a list of cell rows.
pub open spec fn cells_view(cells: Seq<Vec<CellValue>>) -> Seq<Seq<CellValue>> {
    cells.map_values(|r: Vec<CellValue>| r@)
}

/// The model of one materialized row: column `j` carries the `j`-th name
/// and the rendering of the `j`-th cell.
pub open spec fn row_model(names: Seq<Seq<char>>, cells: Seq<CellValue>) -> Seq<(Seq<char>, Seq<char>)> {
    Seq::new(cells.len(), |j: int| (names[j], rendered(cells[j])))
}

/// `rows` is exactly the materialization of the cell matrix `cells` under
/// the column names `names`: one row per cell row, every cell row as wide
/// as the name list, and each row pairing the names with the renderings of
/// its cells, in column order.
pub open spec fn materialization(
    names: Seq<Seq<char>>,
    cells: Seq<Seq<CellValue>>,
    rows: Seq<Row>,
) -> bool {
    &&& rows.len() == cells.len()
    &&& forall|i: int| 0 <= i < cells.len() ==> (#[trigger] cells[i]).len() == names.len()
    &&& forall|i: int| 0 <= i < cells.len() ==> (#[trigger] rows[i])@ == row_model(names, cells[i])
}

/// A query's materialized result: the rows still to be handed out, consumed
/// once, front to back.
pub struct Database {
    rows: Vec<Row>,
}

/// Builds one row: each column name paired with the rendering of its cell.
fn build_row(names: &Vec<String>, cells: &Vec<CellValue>) -> (row: Row)
    requires
        cells@.len() == names@.len(),
    ensures
        row@ == row_model(names_view(names@), cells@),
{
    let mut pairs: Vec<(String, String)> = Vec::new();
    let mut j: usize = 0;
    while j < names.len()
        invariant
            cells@.len() == names@.len(),
            j <= names@.len(),
            pairs@.len() == j,
            forall|k: int| 0 <= k < j ==> pair_view(#[trigger] pairs@[k]) == (names@[k]@, rendered(cells@[k])),
        decreases names@.len() - j,
    {
        let nm = names[j].clone();
        let val = render_cell(&cells[j]);
        pairs.push((nm, val));
        j = j + 1;
    }
    let row = Row::from_pairs(pairs);
    proof {
        assert(row@ =~= row_model(names_view(names@), cells@));
    }
    row
}

/// Turns the engine's typed values into cells, position by position.
fn convert_rows(raw: &Vec<Vec<rusqlite::types::Value>>, ncols: usize) -> (cells: Vec<Vec<CellValue>>)
    requires
        forall|i: int| 0 <= i < raw@.len() ==> (#[trigger] raw@[i])@.len() == ncols,
    ensures
        cells@.len() == raw@.len(),
        forall|i: int| 0 <= i < cells@.len() ==> (#[trigger] cells@[i])@.len() == ncols,
{
    let mut cells: Vec<Vec<CellValue>> = Vec::new();
    let mut i: usize = 0;
    while i < raw.len()
        invariant
            forall|k: int| 0 <= k < raw@.len() ==> (#[trigger] raw@[k])@.len() == ncols,
            i <= raw@.len(),
            cells@.len() == i,
            forall|k: int| 0 <= k < i ==> (#[trigger] cells@[k])@.len() == ncols,
        decreases raw@.len() - i,
    {
        let source = &raw[i];
        let mut converted: Vec<CellValue> = Vec::new();
        let mut j: usize = 0;
        while j < source.len()
            invariant
                source@.len() == ncols,
                j <= ncols,
                converted@.len() == j,
            decreases source@.len() - j,
        {
            converted.push(engine::cell_of_value(&source[j]));
            j = j + 1;
        }
        cells.push(converted);
        i = i + 1;
    }
    cells
}

/// Builds the materialized result from already-typed cells: row `i` pairs
/// each column name with the rendering of cell row `i`, in column order.
pub fn materialize(names: &Vec<String>, cells: &Vec<Vec<CellValue>>) -> (db: Database)
    requires
        forall|i: int| 0 <= i < cells@.len() ==> (#[trigger] cells@[i])@.len() == names@.len(),
    ensures
        materialization(names_view(names@), cells_view(cells@), db.remaining()),
{
    let mut rows: Vec<Row> = Vec::new();
    let mut i: usize = 0;
    while i < cells.len()
        invariant
            forall|k: int| 0 <= k < cells@.len() ==> (#[trigger] cells@[k])@.len() == names@.len(),
            i <= cells@.len(),
            rows@.len() == i,
            forall|k: int| 0 <= k < i ==> (#[trigger] rows@[k])@ == row_model(names_view(names@), cells@[k]@),
        decreases cells@.len() - i,
    {
        let row = build_row(names, &cells[i]);
        rows.push(row);
        i = i + 1;
    }
    let db = Database { rows };
    db
}

impl Database {
    /// The rows not yet handed out.
    pub closed spec fn remaining(self) -> Seq<Row> {
        self.rows@
    }

    /// Runs `query` on `conn`, renders every cell of every result row under
    /// the fixed policy, and returns the whole result, ready to be drained.
    /// Any engine failure while the query runs (bad SQL, a missing table, a
    /// read error) is fatal under the crate's error policy.
    pub fn fetch(conn: &rusqlite::Connection, query: &str) -> (db: Database)
        ensures
            exists|names: Seq<Seq<char>>, cells: Seq<Seq<CellValue>>|
                materialization(names, cells, db.remaining()),
    {
        let mut stmt = engine::prepare_stmt(conn, query);
        let names = engine::column_names(&stmt);
        let ncols = names.len();
        let raw = engine::drain_rows(&mut stmt, ncols);
        let cells = convert_rows(&raw, ncols);
        let db = materialize(&names, &cells);
        proof {
            assert(materialization(names_view(names@), cells_view(cells@), db.remaining()));
        }
        db
    }

    /// Hands out the next row, or reports exhaustion. Once the last row is
    /// out, every later call reports exhaustion again: drained rows never
    /// come back.
    pub fn next(&mut self) -> (r: Option<Row>)
        ensures
            old(self).remaining().len() == 0 ==> r is None && final(self).remaining()
                == old(self).remaining(),
            old(self).remaining().len() > 0 ==> r == Some(old(self).remaining()[0])
                && final(self).remaining() == old(self).remaining().skip(1),
    {
        if self.rows.len() == 0 {
            None
        } else {
            let row = self.rows.remove(0);
            proof {
                assert(self.rows@ =~= old(self).rows@.skip(1));
            }
            Some(row)
        }
    }
}

} // verus!
