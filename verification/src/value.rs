//! The values of a JSON union and the text that each of them flattens to.

use vstd::prelude::*;

use crate::decimal::{decimal, decimals_read_back, digits_are_canonical};
use crate::escape::{json_string, literals_are_distinct};
use crate::json::{booleans_are_json, decimals_are_json, literals_are_json, read_json, Json};

verus! {

/// What one row of a JSON union holds, borrowed from the union.
///
/// A float is held as the text that the standard library displays it with.
#[derive(Debug, Clone, Copy)]
pub enum JsonUnionValue<'a> {
    JsonNull,
    Bool(bool),
    Int(i64),
    Float(&'a str),
    Str(&'a str),
    Array(&'a str),
    Object(&'a str),
}

/// A `JsonUnionValue` with its texts as sequences of characters.
pub ghost enum UnionCell {
    JsonNull,
    Bool(bool),
    Int(i64),
    Float(Seq<char>),
    Str(Seq<char>),
    Array(Seq<char>),
    Object(Seq<char>),
}

impl<'a> View for JsonUnionValue<'a> {
    type V = UnionCell;

    open spec fn view(&self) -> UnionCell {
        match *self {
            JsonUnionValue::JsonNull => UnionCell::JsonNull,
            JsonUnionValue::Bool(b) => UnionCell::Bool(b),
            JsonUnionValue::Int(i) => UnionCell::Int(i),
            JsonUnionValue::Float(text) => UnionCell::Float(text@),
            JsonUnionValue::Str(s) => UnionCell::Str(s@),
            JsonUnionValue::Array(json) => UnionCell::Array(json@),
            JsonUnionValue::Object(json) => UnionCell::Object(json@),
        }
    }
}

/// The canonical JSON text of one value: scalars as `true`, `42` and `1.5`, strings quoted and
/// escaped, arrays and objects, which are JSON text already, unchanged. `None`, which stands for
/// the SQL `NULL`, for a JSON `null`.
pub open spec fn cell_text(cell: UnionCell) -> Option<Seq<char>> {
    match cell {
        UnionCell::JsonNull => None,
        UnionCell::Bool(b) => Some(if b { "true"@ } else { "false"@ }),
        UnionCell::Int(i) => Some(decimal(i as int)),
        UnionCell::Float(text) => Some(text),
        UnionCell::Str(s) => Some(json_string(s)),
        UnionCell::Array(json) => Some(json),
        UnionCell::Object(json) => Some(json),
    }
}

/// The JSON value that a union's value stands for. `None` where the union holds no JSON: a float
/// whose text is no JSON number, as `NaN` is, or an array or an object whose text is none.
pub open spec fn cell_json(cell: UnionCell) -> Option<Json> {
    match cell {
        UnionCell::JsonNull => Some(Json::Null),
        UnionCell::Bool(b) => Some(Json::Bool(b)),
        UnionCell::Int(i) => Some(Json::Number(i as int, 0)),
        UnionCell::Float(text) => match read_json(text) {
            Some(Json::Number(n, k)) => Some(Json::Number(n, k)),
            _ => None,
        },
        UnionCell::Str(s) => Some(Json::Text(s)),
        UnionCell::Array(json) => match read_json(json) {
            Some(Json::Array(items)) => Some(Json::Array(items)),
            _ => None,
        },
        UnionCell::Object(json) => match read_json(json) {
            Some(Json::Object(members)) => Some(Json::Object(members)),
            _ => None,
        },
    }
}

/// Whether the value is a JSON `null`, a boolean, an integer or a string.
pub open spec fn is_plain_scalar(cell: UnionCell) -> bool {
    cell is JsonNull || cell is Bool || cell is Int || cell is Str
}

/// A value is seen as what it is: of its own kind, with its own text or number.
pub proof fn values_are_seen_as_they_are(value: JsonUnionValue<'_>)
    ensures
        match value {
            JsonUnionValue::JsonNull => value@ == UnionCell::JsonNull,
            JsonUnionValue::Bool(b) => value@ == UnionCell::Bool(b),
            JsonUnionValue::Int(i) => value@ == UnionCell::Int(i),
            JsonUnionValue::Float(text) => value@ == UnionCell::Float(text@),
            JsonUnionValue::Str(s) => value@ == UnionCell::Str(s@),
            JsonUnionValue::Array(json) => value@ == UnionCell::Array(json@),
            JsonUnionValue::Object(json) => value@ == UnionCell::Object(json@),
        },
{
}

/// What text a value has: none for a null, the word for a boolean, the decimal text for an
/// integer, the literal for a string, and for a float, an array and an object the text that the
/// value holds.
pub proof fn each_kind_has_its_text(b: bool, i: i64, text: Seq<char>)
    ensures
        cell_text(UnionCell::JsonNull) is None,
        cell_text(UnionCell::Bool(b)) == Some(if b { "true"@ } else { "false"@ }),
        cell_text(UnionCell::Int(i)) == Some(decimal(i as int)),
        cell_text(UnionCell::Float(text)) == Some(text),
        cell_text(UnionCell::Str(text)) == Some(json_string(text)),
        cell_text(UnionCell::Array(text)) == Some(text),
        cell_text(UnionCell::Object(text)) == Some(text),
{
}

/// A JSON `null` becomes the SQL `NULL`, and nothing else does.
pub proof fn only_json_null_becomes_null(cell: UnionCell)
    ensures
        cell_text(cell) is None <==> cell is JsonNull,
{
}

/// The text of an array or an object is the JSON text that the union holds for it.
pub proof fn arrays_and_objects_pass_through(json: Seq<char>)
    ensures
        cell_text(UnionCell::Array(json)) == Some(json),
        cell_text(UnionCell::Object(json)) == Some(json),
{
}

/// The text of a value is JSON text, and reads back as the JSON value that the union's value
/// stands for: the same boolean, the same integer, the number that a float's text writes, the same
/// string, the same array or object.
pub proof fn texts_read_back(cell: UnionCell)
    requires
        cell_json(cell) is Some,
    ensures
        cell_text(cell) matches Some(text) ==> read_json(text) == cell_json(cell),
{
    match cell {
        UnionCell::Bool(b) => booleans_are_json(b),
        UnionCell::Int(i) => decimals_are_json(i as int),
        UnionCell::Str(s) => literals_are_json(s),
        _ => {},
    }
}

/// Nulls, booleans, integers and strings are told apart by their text, both from each other and
/// among themselves.
pub proof fn plain_scalars_are_told_apart(a: UnionCell, b: UnionCell)
    requires
        is_plain_scalar(a),
        is_plain_scalar(b),
        cell_text(a) == cell_text(b),
    ensures
        a == b,
{
    scalar_text_start(a);
    scalar_text_start(b);
    match (a, b) {
        (UnionCell::Str(s), UnionCell::Str(t)) => {
            literals_are_distinct(s, t);
        },
        (UnionCell::Int(i), UnionCell::Int(j)) => {
            decimals_read_back(i as int);
            decimals_read_back(j as int);
        },
        _ => {},
    }
}

/// The first character of a scalar's text tells its kind.
proof fn scalar_text_start(cell: UnionCell)
    requires
        is_plain_scalar(cell),
    ensures
        match (cell, cell_text(cell)) {
            (UnionCell::JsonNull, None) => true,
            (UnionCell::Bool(b), Some(text)) => text.len() > 0 && text[0] == (if b {
                't'
            } else {
                'f'
            }),
            (UnionCell::Int(i), Some(text)) => text.len() > 0 && (text[0] == '-' || ('0' <= text[0]
                && text[0] <= '9')),
            (UnionCell::Str(s), Some(text)) => text.len() > 0 && text[0] == '"',
            _ => false,
        },
{
    reveal_strlit("true");
    reveal_strlit("false");
    if let UnionCell::Int(i) = cell {
        if i >= 0 {
            digits_are_canonical(i as nat);
        }
    }
}

} // verus!
