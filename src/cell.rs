use vstd::prelude::*;
use crate::json::{Json, JsonModel};
use crate::error::ScanError;

verus! {

/// The type a caller declares for an output column.
#[derive(Debug, Clone, Copy, PartialEq, Eq, Structural)]
pub enum TypeTag {
    Int64,
    Text,
    Json,
    /// Any other type of the host, by its type identifier.
    Other(u32),
}

/// One output column: its 1-based position in a source record, its name and type.
#[derive(Debug, Clone, PartialEq)]
pub struct Column {
    pub num: usize,
    pub name: String,
    pub type_tag: TypeTag,
}

/// One typed output value.
#[derive(Debug, PartialEq)]
pub enum Cell {
    Null,
    Int64(i64),
    Text(String),
    Json(Json),
}

/// The mathematical value of a [`Cell`].
pub ghost enum CellModel {
    Null,
    Int64(int),
    Text(Seq<char>),
    Json(JsonModel),
}

impl Cell {
    pub open spec fn model(&self) -> CellModel {
        match self {
            Cell::Null => CellModel::Null,
            Cell::Int64(v) => CellModel::Int64(*v as int),
            Cell::Text(s) => CellModel::Text(s@),
            Cell::Json(j) => CellModel::Json(j.model()),
        }
    }
}

/// The integer that a JSON number with decimal text `t` reads as, taken
/// through the host's floating-point form and truncated toward zero.
pub uninterp spec fn truncated_number(t: Seq<char>) -> Option<i64>;

/// Relies on serde_json's `Number` parsing and `Number::as_f64`, then Rust's
/// float-to-integer cast (truncates toward zero, saturates at the bounds).
#[verifier::external_body]
fn number_to_i64(t: &String) -> (r: Option<i64>)
    ensures
        r == truncated_number(t@),
{
    t.parse::<serde_json::Number>().ok().and_then(|n| n.as_f64()).map(|x| x as i64)
}

/// What coercing a present JSON value `v` to `tag` gives, for a column
/// named `name` at `ordinal`.
pub open spec fn coerced(v: JsonModel, tag: TypeTag, name: Seq<char>, ordinal: usize) -> Result<CellModel, (Seq<char>, usize)> {
    match (tag, v) {
        (TypeTag::Json, _) => Ok(CellModel::Json(v)),
        (TypeTag::Int64, JsonModel::Number(t)) => match truncated_number(t) {
            Some(k) => Ok(CellModel::Int64(k as int)),
            None => Err((name, ordinal)),
        },
        (TypeTag::Text, JsonModel::Str(s)) => Ok(CellModel::Text(s)),
        _ => Err((name, ordinal)),
    }
}

/// A present value never coerces to a type outside `Int64`, `Text` and
/// `Json`; the failure names the column.
pub proof fn lemma_other_type_is_unsupported(v: JsonModel, code: u32, name: Seq<char>, ordinal: usize)
    ensures
        coerced(v, TypeTag::Other(code), name, ordinal) == Err::<CellModel, (Seq<char>, usize)>((name, ordinal)),
{
}

/// The error that a failed coercion reports.
pub open spec fn is_unsupported(e: ScanError, name: Seq<char>, ordinal: usize) -> bool {
    match e {
        ScanError::UnsupportedColumnType { name: n, ordinal: o } => n@ == name && o == ordinal,
        _ => false,
    }
}

/// Whether `r` is what coercing `v` for `col` gives.
pub open spec fn coerce_result(r: Result<Cell, ScanError>, v: JsonModel, col: Column) -> bool {
    match coerced(v, col.type_tag, col.name@, col.num) {
        Ok(m) => r is Ok && r->Ok_0.model() == m,
        Err(_) => r is Err && is_unsupported(r->Err_0, col.name@, col.num),
    }
}

/// Coerces the present JSON value `v` to the type of `col`.
///
/// `Int64` takes a number (truncated toward zero), `Text` takes a string,
/// `Json` takes any value unchanged. Every other pairing, a JSON `null` in
/// an `Int64` or `Text` column included, is `UnsupportedColumnType`, naming
/// the column.
pub fn coerce(v: &Json, col: &Column) -> (r: Result<Cell, ScanError>)
    ensures
        coerce_result(r, v.model(), *col),
{
    let unsupported = ScanError::UnsupportedColumnType { name: col.name.clone(), ordinal: col.num };
    match col.type_tag {
        TypeTag::Json => Ok(Cell::Json(v.deep_clone())),
        TypeTag::Int64 => match v {
            Json::Number(t) => match number_to_i64(t) {
                Some(k) => Ok(Cell::Int64(k)),
                None => Err(unsupported),
            },
            _ => Err(unsupported),
        },
        TypeTag::Text => match v {
            Json::Str(s) => Ok(Cell::Text(s.clone())),
            _ => Err(unsupported),
        },
        TypeTag::Other(_) => Err(unsupported),
    }
}

} // verus!
