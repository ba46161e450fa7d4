use vstd::prelude::*;
use crate::json::Json;
use crate::cell::{Cell, CellModel, Column};
use crate::row::Row;

verus! {

/// One vector-search result: its id, its payload document and its vector,
/// each coordinate held as its decimal text.
#[derive(Debug, PartialEq)]
pub struct Point {
    pub id: i64,
    pub payload: Option<Json>,
    pub vector: Option<Vec<String>>,
}

/// `parts` joined with `", "` between each two.
pub open spec fn joined(parts: Seq<String>) -> Seq<char>
    decreases parts.len(),
{
    if parts.len() == 0 {
        Seq::empty()
    } else if parts.len() == 1 {
        parts[0]@
    } else {
        joined(parts.drop_last()) + seq![',', ' '] + parts.last()@
    }
}

/// Joins the decimal texts of a vector with `", "`.
pub fn join_coordinates(parts: &Vec<String>) -> (r: String)
    ensures
        r@ == joined(parts@),
{
    let mut out = String::new();
    if parts.len() == 0 {
        return out;
    }
    out.append(parts[0].as_str());
    let mut i: usize = 1;
    assert(parts@.take(1).drop_last() =~= parts@.take(0));
    while i < parts.len()
        invariant
            1 <= i <= parts.len(),
            out@ == joined(parts@.take(i as int)),
        decreases parts.len() - i,
    {
        proof { reveal_strlit(", "); }
        out.append(", ");
        out.append(parts[i].as_str());
        assert(parts@.take(i + 1).drop_last() =~= parts@.take(i as int));
        i = i + 1;
    }
    assert(parts@.take(i as int) =~= parts@);
    out
}

/// The cell that a point gives for a column named `name`: `id`, `payload`
/// and `vector` read the point; a part the point lacks, or any other name,
/// gives null.
pub open spec fn point_cell(p: Point, name: Seq<char>) -> CellModel {
    if name == seq!['i', 'd'] {
        CellModel::Int64(p.id as int)
    } else if name == seq!['p', 'a', 'y', 'l', 'o', 'a', 'd'] {
        match p.payload {
            Some(j) => CellModel::Json(j.model()),
            None => CellModel::Null,
        }
    } else if name == seq!['v', 'e', 'c', 't', 'o', 'r'] {
        match p.vector {
            Some(v) => CellModel::Text(joined(v@)),
            None => CellModel::Null,
        }
    } else {
        CellModel::Null
    }
}

impl Point {
    /// The cell this point gives for a column named `name`.
    fn cell_for(&self, name: &String) -> (r: Cell)
        ensures
            r.model() == point_cell(*self, name@),
    {
        let id_name = String::from_str("id");
        let payload_name = String::from_str("payload");
        let vector_name = String::from_str("vector");
        proof {
            reveal_strlit("id");
            reveal_strlit("payload");
            reveal_strlit("vector");
            assert(id_name@ =~= seq!['i', 'd']);
            assert(payload_name@ =~= seq!['p', 'a', 'y', 'l', 'o', 'a', 'd']);
            assert(vector_name@ =~= seq!['v', 'e', 'c', 't', 'o', 'r']);
        }
        if *name == id_name {
            Cell::Int64(self.id)
        } else if *name == payload_name {
            match &self.payload {
                Some(j) => Cell::Json(j.deep_clone()),
                None => Cell::Null,
            }
        } else if *name == vector_name {
            match &self.vector {
                Some(v) => Cell::Text(join_coordinates(v)),
                None => Cell::Null,
            }
        } else {
            Cell::Null
        }
    }

    /// Projects this point onto `columns`, one cell per column in order.
    pub fn into_row(self, columns: &Vec<Column>) -> (r: Row)
        ensures
            r.cols@.len() == columns@.len(),
            r.cells@.len() == columns@.len(),
            forall|k: int| 0 <= k < columns@.len() ==> #[trigger] r.cols@[k]@ == columns@[k].name@,
            forall|k: int| 0 <= k < columns@.len() ==>
                (#[trigger] r.cells@[k]).model() == point_cell(self, columns@[k].name@),
    {
        let mut row = Row::new();
        let mut i: usize = 0;
        while i < columns.len()
            invariant
                i <= columns.len(),
                row.cols@.len() == i,
                row.cells@.len() == i,
                forall|k: int| 0 <= k < i ==> #[trigger] row.cols@[k]@ == columns@[k].name@,
                forall|k: int| 0 <= k < i ==>
                    (#[trigger] row.cells@[k]).model() == point_cell(self, columns@[k].name@),
            decreases columns.len() - i,
        {
            let cell = self.cell_for(&columns[i].name);
            row.push(columns[i].name.clone(), cell);
            i = i + 1;
        }
        row
    }
}

} // verus!
