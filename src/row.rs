use vstd::prelude::*;
use crate::json::{Json, JsonModel, member, element, opt_model};
use crate::cell::{Cell, CellModel, Column, coerce, coerce_result, coerced, is_unsupported};
use crate::error::ScanError;

verus! {

/// One output row: a name and a cell for each requested column, in order.
#[derive(Debug, PartialEq)]
pub struct Row {
    pub cols: Vec<String>,
    pub cells: Vec<Cell>,
}

impl Row {
    /// A row with no columns.
    pub fn new() -> (r: Row)
        ensures
            r.cols@.len() == 0,
            r.cells@.len() == 0,
    {
        Row { cols: Vec::new(), cells: Vec::new() }
    }

    /// Appends one column named `name` holding `cell`.
    pub fn push(&mut self, name: String, cell: Cell)
        ensures
            final(self).cols@ == old(self).cols@.push(name),
            final(self).cells@ == old(self).cells@.push(cell),
    {
        self.cols.push(name);
        self.cells.push(cell);
    }
}

/// The field that a column at 1-based `ordinal` reads from a cell-array
/// record: `c[ordinal - 1].v`.
pub open spec fn positional_field(record: JsonModel, ordinal: usize) -> Option<JsonModel> {
    if ordinal == 0 {
        None
    } else {
        match member(record, seq!['c']) {
            Some(cs) => match element(cs, ordinal - 1) {
                Some(c) => member(c, seq!['v']),
                None => None,
            },
            None => None,
        }
    }
}

/// Whether `row` is the projection of `record` onto the first `n` of `cols`:
/// each column named as declared, holding its coerced field, or null where
/// the field is absent.
pub open spec fn projects_prefix(row: Row, record: JsonModel, cols: Seq<Column>, n: int) -> bool {
    &&& row.cols@.len() == n
    &&& row.cells@.len() == n
    &&& forall|k: int| 0 <= k < n ==> #[trigger] row.cols@[k]@ == cols[k].name@
    &&& forall|k: int| 0 <= k < n ==> match positional_field(record, #[trigger] cols[k].num) {
        None => row.cells@[k].model() == CellModel::Null,
        Some(v) => coerced(v, cols[k].type_tag, cols[k].name@, cols[k].num) == Ok::<CellModel, (Seq<char>, usize)>(row.cells@[k].model()),
    }
}

/// Whether projecting `record` onto `cols` fails: some present field cannot
/// be coerced to its column's type.
pub open spec fn projection_fails(record: JsonModel, cols: Seq<Column>) -> bool {
    exists|k: int| 0 <= k < cols.len() && match positional_field(record, #[trigger] cols[k].num) {
        None => false,
        Some(v) => coerced(v, cols[k].type_tag, cols[k].name@, cols[k].num) is Err,
    }
}

/// Whether `e` names a column of `cols` whose present field in `record`
/// cannot be coerced, the first such column.
pub open spec fn first_failure(e: ScanError, record: JsonModel, cols: Seq<Column>) -> bool {
    exists|k: int| 0 <= k < cols.len()
        && is_unsupported(e, cols[k].name@, cols[k].num)
        && (match positional_field(record, #[trigger] cols[k].num) {
            None => false,
            Some(v) => coerced(v, cols[k].type_tag, cols[k].name@, cols[k].num) is Err,
        })
        && !projection_fails(record, cols.take(k))
}

/// A projected row has one column per requested column, named and ordered
/// as requested, whatever the record holds.
pub proof fn lemma_row_follows_columns(row: Row, record: JsonModel, cols: Seq<Column>)
    requires
        projects_prefix(row, record, cols, cols.len() as int),
    ensures
        row.cols@.len() == cols.len(),
        row.cells@.len() == cols.len(),
        forall|k: int| 0 <= k < cols.len() ==> #[trigger] row.cols@[k]@ == cols[k].name@,
{
}

/// A record that holds no field for any requested column projects without
/// error, to null cells.
pub proof fn lemma_absent_fields_give_nulls(row: Row, record: JsonModel, cols: Seq<Column>)
    requires
        forall|k: int| 0 <= k < cols.len() ==> positional_field(record, #[trigger] cols[k].num) is None,
    ensures
        !projection_fails(record, cols),
        projects_prefix(row, record, cols, cols.len() as int) ==>
            forall|k: int| 0 <= k < cols.len() ==> (#[trigger] row.cells@[k]).model() == CellModel::Null,
{
    if projects_prefix(row, record, cols, cols.len() as int) {
        assert forall|k: int| 0 <= k < cols.len() implies (#[trigger] row.cells@[k]).model() == CellModel::Null by {
            assert(positional_field(record, cols[k].num) is None);
        }
    }
}

/// A present field that cannot be coerced makes the projection fail; when no
/// earlier column fails, the error names that column.
pub proof fn lemma_failure_names_column(record: JsonModel, cols: Seq<Column>, j: int, e: ScanError)
    requires
        0 <= j < cols.len(),
        positional_field(record, cols[j].num) matches Some(v)
            && coerced(v, cols[j].type_tag, cols[j].name@, cols[j].num) is Err,
    ensures
        projection_fails(record, cols),
        !projection_fails(record, cols.take(j)) && first_failure(e, record, cols)
            ==> is_unsupported(e, cols[j].name@, cols[j].num),
{
    assert(0 <= j < cols.len() && match positional_field(record, cols[j].num) {
        None => false,
        Some(v) => coerced(v, cols[j].type_tag, cols[j].name@, cols[j].num) is Err,
    });
    if !projection_fails(record, cols.take(j)) && first_failure(e, record, cols) {
        let k = choose|k: int| 0 <= k < cols.len()
            && is_unsupported(e, cols[k].name@, cols[k].num)
            && (match positional_field(record, #[trigger] cols[k].num) {
                None => false,
                Some(v) => coerced(v, cols[k].type_tag, cols[k].name@, cols[k].num) is Err,
            })
            && !projection_fails(record, cols.take(k));
        if k < j {
            assert(cols.take(j)[k] == cols[k]);
        } else if k > j {
            assert(cols.take(k)[j] == cols[j]);
        }
    }
}

/// Reads the positional field of `record` for a column at `ordinal`.
pub fn find_field(record: &Json, ordinal: usize) -> (r: Option<&Json>)
    ensures
        opt_model(r) == positional_field(record.model(), ordinal),
{
    if ordinal == 0 {
        return None;
    }
    let c_key = String::from_str("c");
    let v_key = String::from_str("v");
    proof {
        reveal_strlit("c");
        reveal_strlit("v");
        assert(c_key@ =~= seq!['c']);
        assert(v_key@ =~= seq!['v']);
    }
    match record.get_member(&c_key) {
        Some(cs) => match cs.get_element(ordinal - 1) {
            Some(c) => c.get_member(&v_key),
            None => None,
        },
        None => None,
    }
}

/// Projects one cell-array record onto `columns`, one cell per column in
/// order. An absent field gives a null cell; a present field that cannot be
/// coerced fails with `UnsupportedColumnType` for the first such column.
pub fn project_record(record: &Json, columns: &Vec<Column>) -> (r: Result<Row, ScanError>)
    ensures
        match r {
            Ok(row) => !projection_fails(record.model(), columns@)
                && projects_prefix(row, record.model(), columns@, columns@.len() as int),
            Err(e) => projection_fails(record.model(), columns@)
                && first_failure(e, record.model(), columns@),
        },
{
    let mut row = Row::new();
    let mut i: usize = 0;
    while i < columns.len()
        invariant
            i <= columns.len(),
            projects_prefix(row, record.model(), columns@, i as int),
            !projection_fails(record.model(), columns@.take(i as int)),
        decreases columns.len() - i,
    {
        let col = &columns[i];
        let cell = match find_field(record, col.num) {
            None => Cell::Null,
            Some(v) => match coerce(v, col) {
                Ok(c) => c,
                Err(e) => {
                    proof {
                        assert(coerce_result(Err::<Cell, ScanError>(e), v.model(), *col));
                    }
                    return Err(e);
                },
            },
        };
        row.push(col.name.clone(), cell);
        proof {
            assert forall|k: int| 0 <= k < i + 1 implies #[trigger] row.cols@[k]@ == columns@[k].name@ by {}
            assert(!projection_fails(record.model(), columns@.take(i + 1))) by {
                if projection_fails(record.model(), columns@.take(i + 1)) {
                    let k = choose|k: int| 0 <= k < i + 1 && match positional_field(record.model(), #[trigger] columns@.take(i + 1)[k].num) {
                        None => false,
                        Some(v) => coerced(v, columns@.take(i + 1)[k].type_tag, columns@.take(i + 1)[k].name@, columns@.take(i + 1)[k].num) is Err,
                    };
                    if k < i {
                        assert(columns@.take(i as int)[k] == columns@[k]);
                    }
                }
            }
        }
        i = i + 1;
    }
    assert(columns@.take(columns@.len() as int) =~= columns@);
    Ok(row)
}

} // verus!
