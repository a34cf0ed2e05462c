//! Flattening of a JSON union column, row by row, into a column of JSON text.

use datafusion::arrow::array::UnionArray;
use vstd::prelude::*;
use vstd::utf8::encode_utf8;

use crate::arrow::{
    append_null, append_value, as_union, block_bytes, block_len, builder_capacity, builder_texts,
    byte_len, column_bools, column_float_texts, column_ints, column_strings, column_texts,
    column_type, column_union, finish, kind_index, type_index, union_children, union_type,
    union_type_ids, with_capacity, ArrowColumn, ArrowKind, TextBuilder, MAX_BLOCKS,
    MAX_BLOCK_BYTES, MAX_INLINE_BYTES, MAX_ROWS, MAX_TEXT_BYTES,
};
use crate::decimal::{decimal, push_decimal};
use crate::encoder::{
    json_union_cells, json_union_index, json_union_is_distinct, rows_hold_their_members_entries,
    unions_that_match_make_rows, JsonUnionEncoder,
};
use crate::error::TextError;
use crate::escape::{json_string, push_json_string};
use crate::json::{read_json, Json};
use crate::value::{
    cell_json, cell_text, is_plain_scalar, plain_scalars_are_told_apart, texts_read_back,
    JsonUnionValue, UnionCell,
};

verus! {

/// The text of each row.
pub open spec fn row_texts(cells: Seq<UnionCell>) -> Seq<Option<Seq<char>>> {
    Seq::new(cells.len(), |i: int| cell_text(cells[i]))
}

/// Whether a column of strings can hold these rows.
pub open spec fn column_fits(rows: Seq<Option<Seq<char>>>) -> bool {
    &&& rows.len() <= MAX_ROWS
    &&& forall|i: int|
        0 <= i < rows.len() ==> (#[trigger] rows[i] matches Some(text) ==> byte_len(text)
            <= MAX_TEXT_BYTES)
    &&& rows.len() <= MAX_BLOCKS || block_bytes(rows) <= MAX_BLOCK_BYTES
}

/// The text of each row of a column that is a JSON union, or the error that says why it is none.
pub open spec fn flat_texts(column: ArrowColumn) -> Result<Seq<Option<Seq<char>>>, TextError> {
    match column_union(column) {
        Some(union) => match json_union_cells(union) {
            Some(cells) => Ok(row_texts(cells)),
            None => Err(TextError::NotJsonUnion),
        },
        None => Err(TextError::NotUnionArray),
    }
}

/// Whether a column of strings can hold what a column flattens to, if it does.
pub open spec fn text_fits(column: ArrowColumn) -> bool {
    flat_texts(column) matches Ok(rows) ==> column_fits(rows)
}

/// Whether `column` is of the type `Utf8View` and holds these rows.
pub open spec fn is_text_column(column: ArrowColumn, rows: Seq<Option<Seq<char>>>) -> bool {
    &&& column_texts(column) == rows
    &&& type_index(column_type(column)) == kind_index(ArrowKind::Utf8View)
}

/// Whether `column` is of the JSON union type, which no other sparse union and no kind is.
pub open spec fn has_json_union_type(column: ArrowColumn) -> bool {
    &&& type_index(column_type(column)) == json_union_index()
    &&& json_union_is_distinct()
}

/// That `result` is what flattening `column` gives. A column that is flattened is of the JSON
/// union type.
pub open spec fn flattened(column: ArrowColumn, result: Result<ArrowColumn, TextError>) -> bool {
    match (flat_texts(column), result) {
        (Ok(rows), Ok(text)) => has_json_union_type(column) && is_text_column(text, rows),
        (Err(expected), Err(error)) => error == expected,
        _ => false,
    }
}

/// Only an array that is a union has texts, and of the union arrays exactly those of the JSON union
/// type whose member columns are of the members' types and as long as the array, and whose type
/// ids are all among the seven. That holds of any number of rows.
pub proof fn json_unions_have_texts(column: ArrowColumn, union: UnionArray)
    ensures
        column_union(column) is None ==> flat_texts(column) == Err::<
            Seq<Option<Seq<char>>>,
            TextError,
        >(TextError::NotUnionArray),
        column_union(column) == Some(union) ==> (flat_texts(column) is Ok <==> {
            let ids = union_type_ids(union);
            let children = union_children(union);
            &&& type_index(union_type(union)) == json_union_index()
            &&& column_bools(children[1]) matches Some(entries) && entries.len() == ids.len()
            &&& column_ints(children[2]) matches Some(entries) && entries.len() == ids.len()
            &&& column_float_texts(children[3]) matches Some(entries) && entries.len() == ids.len()
            &&& column_strings(children[4]) matches Some(entries) && entries.len() == ids.len()
            &&& column_strings(children[5]) matches Some(entries) && entries.len() == ids.len()
            &&& column_strings(children[6]) matches Some(entries) && entries.len() == ids.len()
            &&& forall|i: int| 0 <= i < ids.len() ==> 0 <= #[trigger] ids[i] <= 6
        }),
        column_union(column) is Some ==> flat_texts(column) is Ok || flat_texts(column) == Err::<
            Seq<Option<Seq<char>>>,
            TextError,
        >(TextError::NotJsonUnion),
{
    unions_that_match_make_rows(union);
}

/// Each text is that of the entry, at the row's place, of the column of the member that the row's
/// type id chooses: none for a null, and else a text that reads back as a boolean, an integer or a
/// string, or that is the float's, the array's or the object's own.
pub proof fn texts_say_what_the_union_holds(
    column: ArrowColumn,
    union: UnionArray,
    rows: Seq<Option<Seq<char>>>,
    i: int,
)
    requires
        column_union(column) == Some(union),
        flat_texts(column) == Ok::<Seq<Option<Seq<char>>>, TextError>(rows),
        0 <= i < union_type_ids(union).len(),
    ensures
        rows.len() == union_type_ids(union).len(),
        ({
            let id = union_type_ids(union)[i];
            let children = union_children(union);
            let text = rows[i];
            &&& 0 <= id <= 6
            &&& text is None <==> id == 0
            &&& id == 1 ==> {
                let b = column_bools(children[1])->0[i];
                text == Some(if b { "true"@ } else { "false"@ }) && read_json(text->0) == Some(
                    Json::Bool(b),
                )
            }
            &&& id == 2 ==> {
                let n = column_ints(children[2])->0[i] as int;
                text == Some(decimal(n)) && read_json(text->0) == Some(Json::Number(n, 0))
            }
            &&& id == 3 ==> text == Some(column_float_texts(children[3])->0[i])
            &&& id == 4 ==> {
                let s = column_strings(children[4])->0[i];
                text == Some(json_string(s)) && read_json(text->0) == Some(Json::Text(s))
            }
            &&& id == 5 ==> text == Some(column_strings(children[5])->0[i])
            &&& id == 6 ==> text == Some(column_strings(children[6])->0[i])
        }),
{
    let cells = json_union_cells(union)->0;
    rows_hold_their_members_entries(union, cells, i);
    if cells[i] is Bool || cells[i] is Int || cells[i] is Str {
        texts_read_back(cells[i]);
    }
}

/// Whether the text of a column fits rests on the limits alone: sixteen bytes for each row in one
/// allocation, one text in one block, and no more blocks than there are numbers for.
pub proof fn texts_fit_up_to_the_limits(column: ArrowColumn, rows: Seq<Option<Seq<char>>>)
    ensures
        flat_texts(column) is Err ==> text_fits(column),
        flat_texts(column) == Ok::<Seq<Option<Seq<char>>>, TextError>(rows) ==> (text_fits(column)
            <==> {
            &&& rows.len() <= usize::MAX / 32
            &&& forall|i: int|
                0 <= i < rows.len() ==> (#[trigger] rows[i] matches Some(text) ==> encode_utf8(
                    text,
                ).len() < u32::MAX)
            &&& rows.len() <= u32::MAX || block_bytes(rows) <= 0xf_ffff_ff80_0000
        }),
{
}

/// One more row adds the bytes of its text to the blocks, if it has more than twelve.
pub proof fn rows_add_their_bytes(rows: Seq<Option<Seq<char>>>, row: Option<Seq<char>>)
    ensures
        block_bytes(Seq::empty()) == 0,
        block_bytes(rows.push(row)) == block_bytes(rows) + (match row {
            Some(text) => if encode_utf8(text).len() > 12 {
                encode_utf8(text).len()
            } else {
                0
            },
            None => 0,
        }),
{
    assert(rows.push(row).drop_last() =~= rows);
}

/// A column is flattened exactly where it is a union array of the JSON union type whose member
/// columns are of the members' types and as long as the array, and whose type ids are all among
/// the seven. Any other union array is refused as being no JSON union, and any other array as
/// being no union array.
pub proof fn json_unions_alone_are_flattened(
    column: ArrowColumn,
    union: UnionArray,
    result: Result<ArrowColumn, TextError>,
)
    requires
        flattened(column, result),
    ensures
        column_union(column) is None <==> result == Err::<ArrowColumn, TextError>(
            TextError::NotUnionArray,
        ),
        column_union(column) == Some(union) ==> (result is Ok <==> {
            let ids = union_type_ids(union);
            let children = union_children(union);
            &&& type_index(union_type(union)) == json_union_index()
            &&& column_bools(children[1]) matches Some(entries) && entries.len() == ids.len()
            &&& column_ints(children[2]) matches Some(entries) && entries.len() == ids.len()
            &&& column_float_texts(children[3]) matches Some(entries) && entries.len() == ids.len()
            &&& column_strings(children[4]) matches Some(entries) && entries.len() == ids.len()
            &&& column_strings(children[5]) matches Some(entries) && entries.len() == ids.len()
            &&& column_strings(children[6]) matches Some(entries) && entries.len() == ids.len()
            &&& forall|i: int| 0 <= i < ids.len() ==> 0 <= #[trigger] ids[i] <= 6
        }),
        column_union(column) is Some ==> result is Ok || result == Err::<ArrowColumn, TextError>(
            TextError::NotJsonUnion,
        ),
{
    unions_that_match_make_rows(union);
}

/// The column that a union array is flattened to is of the type `Utf8View` and has the array's
/// rows. A row is null exactly where the type id is the null member's, and every other row is the
/// text of the entry, at its place, of the member's column that its type id chooses: a text that
/// reads back as that boolean, integer or string, or the float's, the array's or the object's own.
pub proof fn flattened_rows_say_what_the_union_holds(
    column: ArrowColumn,
    union: UnionArray,
    text_column: ArrowColumn,
    i: int,
)
    requires
        column_union(column) == Some(union),
        flattened(column, Ok(text_column)),
        0 <= i < union_type_ids(union).len(),
    ensures
        type_index(column_type(text_column)) == kind_index(ArrowKind::Utf8View),
        column_texts(text_column).len() == union_type_ids(union).len(),
        ({
            let id = union_type_ids(union)[i];
            let children = union_children(union);
            let text = column_texts(text_column)[i];
            &&& 0 <= id <= 6
            &&& text is None <==> id == 0
            &&& id == 1 ==> {
                let b = column_bools(children[1])->0[i];
                text == Some(if b { "true"@ } else { "false"@ }) && read_json(text->0) == Some(
                    Json::Bool(b),
                )
            }
            &&& id == 2 ==> {
                let n = column_ints(children[2])->0[i] as int;
                text == Some(decimal(n)) && read_json(text->0) == Some(Json::Number(n, 0))
            }
            &&& id == 3 ==> text == Some(column_float_texts(children[3])->0[i])
            &&& id == 4 ==> {
                let s = column_strings(children[4])->0[i];
                text == Some(json_string(s)) && read_json(text->0) == Some(Json::Text(s))
            }
            &&& id == 5 ==> text == Some(column_strings(children[5])->0[i])
            &&& id == 6 ==> text == Some(column_strings(children[6])->0[i])
        }),
{
    texts_say_what_the_union_holds(column, union, column_texts(text_column), i);
}

/// Where every float, array and object of a union array is JSON text of its kind, every row that
/// is not null is flattened to JSON text that reads back as the entry of its member's column.
pub proof fn flattened_rows_read_back(
    column: ArrowColumn,
    union: UnionArray,
    text_column: ArrowColumn,
    i: int,
)
    requires
        column_union(column) == Some(union),
        flattened(column, Ok(text_column)),
        0 <= i < union_type_ids(union).len(),
        union_type_ids(union)[i] == 3 ==> read_json(
            column_float_texts(union_children(union)[3])->0[i],
        ) matches Some(Json::Number(_, _)),
        union_type_ids(union)[i] == 5 ==> read_json(
            column_strings(union_children(union)[5])->0[i],
        ) matches Some(Json::Array(_)),
        union_type_ids(union)[i] == 6 ==> read_json(
            column_strings(union_children(union)[6])->0[i],
        ) matches Some(Json::Object(_)),
    ensures
        column_texts(text_column)[i] is None <==> union_type_ids(union)[i] == 0,
        column_texts(text_column)[i] matches Some(text) ==> {
            let id = union_type_ids(union)[i];
            let children = union_children(union);
            read_json(text) == (if id == 1 {
                Some(Json::Bool(column_bools(children[1])->0[i]))
            } else if id == 2 {
                Some(Json::Number(column_ints(children[2])->0[i] as int, 0))
            } else if id == 3 {
                read_json(column_float_texts(children[3])->0[i])
            } else if id == 4 {
                Some(Json::Text(column_strings(children[4])->0[i]))
            } else {
                read_json(column_strings(children[id as int])->0[i])
            }) && read_json(text) is Some
        },
{
    flattened_rows_say_what_the_union_holds(column, union, text_column, i);
}

/// A column of text holds, for each value, the text of that value and nothing else.
pub proof fn text_columns_hold_each_text(cells: Seq<UnionCell>, column: ArrowColumn, i: int)
    requires
        is_text_column(column, row_texts(cells)),
        0 <= i < cells.len(),
    ensures
        type_index(column_type(column)) == kind_index(ArrowKind::Utf8View),
        column_texts(column).len() == cells.len(),
        column_texts(column)[i] == (match cells[i] {
            UnionCell::JsonNull => None,
            UnionCell::Bool(b) => Some(if b { "true"@ } else { "false"@ }),
            UnionCell::Int(n) => Some(decimal(n as int)),
            UnionCell::Float(text) => Some(text),
            UnionCell::Str(s) => Some(json_string(s)),
            UnionCell::Array(json) => Some(json),
            UnionCell::Object(json) => Some(json),
        }),
{
}

/// Texts fit into a column up to the same limits, whatever values they are of.
pub proof fn values_fit_up_to_the_limits(cells: Seq<UnionCell>)
    ensures
        row_texts(cells).len() == cells.len(),
        column_fits(row_texts(cells)) <==> {
            &&& cells.len() <= usize::MAX / 32
            &&& forall|i: int|
                0 <= i < cells.len() ==> (#[trigger] row_texts(cells)[i] matches Some(text)
                    ==> encode_utf8(text).len() < u32::MAX)
            &&& cells.len() <= u32::MAX || block_bytes(row_texts(cells)) <= 0xf_ffff_ff80_0000
        },
{
}

/// Flattening keeps the number of rows, and a row is null exactly where the union holds a JSON
/// `null`.
pub proof fn rows_are_kept(cells: Seq<UnionCell>)
    ensures
        row_texts(cells).len() == cells.len(),
        forall|i: int|
            0 <= i < cells.len() ==> (#[trigger] row_texts(cells)[i] is None <==> cells[i] is JsonNull),
{
}

/// Each row is flattened by itself: the rows of two unions put together flatten to the texts of
/// the one followed by the texts of the other.
pub proof fn rows_are_independent(first: Seq<UnionCell>, second: Seq<UnionCell>)
    ensures
        row_texts(first + second) == row_texts(first) + row_texts(second),
{
    assert(row_texts(first + second) =~= row_texts(first) + row_texts(second));
}

/// Every row that is not null is JSON text, and reads back as the JSON value that the union's
/// value stands for.
pub proof fn rows_read_back(cells: Seq<UnionCell>)
    requires
        forall|i: int| 0 <= i < cells.len() ==> cell_json(#[trigger] cells[i]) is Some,
    ensures
        forall|i: int|
            0 <= i < cells.len() ==> (#[trigger] row_texts(cells)[i] matches Some(text)
                ==> read_json(text) == cell_json(cells[i])),
{
    assert forall|i: int| 0 <= i < cells.len() implies (#[trigger] row_texts(
        cells,
    )[i] matches Some(text) ==> read_json(text) == cell_json(cells[i])) by {
        texts_read_back(cells[i]);
    }
}

/// A column of nulls, booleans, integers and strings loses nothing: the values can be told from
/// the texts.
pub proof fn plain_columns_are_told_apart(first: Seq<UnionCell>, second: Seq<UnionCell>)
    requires
        forall|i: int| 0 <= i < first.len() ==> is_plain_scalar(#[trigger] first[i]),
        forall|i: int| 0 <= i < second.len() ==> is_plain_scalar(#[trigger] second[i]),
        row_texts(first) == row_texts(second),
    ensures
        first == second,
{
    assert(first.len() == row_texts(first).len() && second.len() == row_texts(second).len());
    assert forall|i: int| 0 <= i < first.len() implies first[i] == second[i] by {
        assert(row_texts(first)[i] == row_texts(second)[i]);
        plain_scalars_are_told_apart(first[i], second[i]);
    }
    assert(first =~= second);
}

/// A column is either flattened or refused, with one outcome: two results of flattening it hold
/// the same rows or are the same error.
pub proof fn flattening_is_determined(
    column: ArrowColumn,
    first: Result<ArrowColumn, TextError>,
    second: Result<ArrowColumn, TextError>,
)
    requires
        flattened(column, first),
        flattened(column, second),
    ensures
        match (first, second) {
            (Ok(first), Ok(second)) => column_texts(first) == column_texts(second),
            (Err(first), Err(second)) => first == second,
            _ => false,
        },
{
}

proof fn block_bytes_of_prefix(rows: Seq<Option<Seq<char>>>, n: int)
    requires
        0 <= n <= rows.len(),
    ensures
        block_bytes(rows.take(n)) <= block_bytes(rows),
    decreases rows.len(),
{
    if n == rows.len() {
        assert(rows.take(n) =~= rows);
    } else {
        assert(rows.drop_last().take(n) =~= rows.take(n));
        block_bytes_of_prefix(rows.drop_last(), n);
    }
}

/// Whether a builder has a row left, and `used`, unless it is for few rows, counts the bytes in
/// its blocks.
spec fn has_room(builder: TextBuilder, used: u64) -> bool {
    &&& builder_texts(builder).len() < builder_capacity(builder)
    &&& counts_blocks(builder, used)
}

/// Whether `used` counts the bytes in a builder's blocks, which it need not for few rows.
spec fn counts_blocks(builder: TextBuilder, used: u64) -> bool {
    builder_capacity(builder) <= MAX_BLOCKS || used == block_bytes(builder_texts(builder))
        <= MAX_BLOCK_BYTES
}

/// Whether a builder can hold this text in one more row.
spec fn holds_one_more(builder: TextBuilder, text: Seq<char>) -> bool {
    &&& byte_len(text) <= MAX_TEXT_BYTES
    &&& builder_capacity(builder) <= MAX_BLOCKS || block_bytes(builder_texts(builder)) + block_len(
        text,
    ) <= MAX_BLOCK_BYTES
}

/// Adds a row that holds `text`, as long as the column can hold it. Says whether it could.
/// `capacity` is the number of rows that the builder was made for.
fn append_text(builder: &mut TextBuilder, capacity: usize, used: &mut u64, text: &str) -> (added:
    bool)
    requires
        has_room(*old(builder), *old(used)),
        capacity == builder_capacity(*old(builder)),
    ensures
        added == holds_one_more(*old(builder), text@),
        added ==> {
            &&& builder_texts(*final(builder)) == builder_texts(*old(builder)).push(Some(text@))
            &&& builder_capacity(*final(builder)) == capacity
            &&& counts_blocks(*final(builder), *final(used))
        },
{
    let ghost before = builder_texts(*builder);
    assert(before.push(Some(text@)).drop_last() =~= before);
    let bytes: u64 = text.as_bytes().len() as u64;
    if bytes > MAX_TEXT_BYTES {
        return false;
    }
    if capacity as u64 > MAX_BLOCKS && bytes > MAX_INLINE_BYTES {
        if *used + bytes > MAX_BLOCK_BYTES {
            return false;
        }
        *used = *used + bytes;
    }
    append_value(builder, text);
    true
}

/// Adds a row that holds the text of `value`, as long as the column can hold it. Says whether it
/// could. `capacity` is the number of rows that the builder was made for; what `scratch` held is
/// lost.
fn append_row(
    builder: &mut TextBuilder,
    capacity: usize,
    used: &mut u64,
    scratch: &mut String,
    value: JsonUnionValue<'_>,
) -> (added: bool)
    requires
        has_room(*old(builder), *old(used)),
        capacity == builder_capacity(*old(builder)),
    ensures
        added == (cell_text(value@) matches Some(text) ==> holds_one_more(*old(builder), text)),
        added ==> {
            &&& builder_texts(*final(builder)) == builder_texts(*old(builder)).push(
                cell_text(value@),
            )
            &&& builder_capacity(*final(builder)) == capacity
            &&& counts_blocks(*final(builder), *final(used))
        },
{
    let ghost before = builder_texts(*builder);
    assert(before.push(cell_text(value@)).drop_last() =~= before);
    match value {
        JsonUnionValue::JsonNull => {
            append_null(builder);
            true
        },
        JsonUnionValue::Bool(b) => append_text(
            builder,
            capacity,
            used,
            if b {
                "true"
            } else {
                "false"
            },
        ),
        JsonUnionValue::Int(i) => {
            scratch.clear();
            push_decimal(scratch, i);
            append_text(builder, capacity, used, scratch.as_str())
        },
        JsonUnionValue::Float(text) => append_text(builder, capacity, used, text),
        // A bare string scalar must be quoted and escaped.
        JsonUnionValue::Str(s) => {
            scratch.clear();
            push_json_string(scratch, s);
            append_text(builder, capacity, used, scratch.as_str())
        },
        // Arrays and objects hold JSON text already.
        JsonUnionValue::Array(json) | JsonUnionValue::Object(json) => append_text(
            builder,
            capacity,
            used,
            json,
        ),
    }
}

/// The text of every row as a column, `None` where no column of strings can hold it.
pub fn flatten(encoder: &JsonUnionEncoder) -> (column: Option<ArrowColumn>)
    ensures
        match column {
            Some(column) => column_fits(row_texts(encoder@)) && is_text_column(
                column,
                row_texts(encoder@),
            ),
            None => !column_fits(row_texts(encoder@)),
        },
{
    let ghost rows = row_texts(encoder@);
    let len: usize = encoder.len();
    if len > MAX_ROWS {
        return None;
    }
    let mut builder = with_capacity(len);
    let mut used: u64 = 0;
    let mut scratch = String::new();
    for idx in 0..len
        invariant
            rows == row_texts(encoder@),
            len == rows.len(),
            len <= MAX_ROWS,
            builder_texts(builder) == rows.take(idx as int),
            builder_capacity(builder) == len,
            counts_blocks(builder, used),
            forall|i: int|
                0 <= i < idx ==> (#[trigger] rows[i] matches Some(text) ==> byte_len(text)
                    <= MAX_TEXT_BYTES),
    {
        let added = append_row(
            &mut builder,
            len,
            &mut used,
            &mut scratch,
            encoder.get_value(idx),
        );
        proof {
            assert(rows[idx as int] == cell_text(encoder@[idx as int]));
            assert(rows.take(idx + 1) =~= rows.take(idx as int).push(rows[idx as int]));
            assert(rows.take(idx + 1).drop_last() =~= rows.take(idx as int));
            block_bytes_of_prefix(rows, idx + 1);
        }
        if !added {
            return None;
        }
    }
    assert(rows.take(len as int) =~= rows);
    Some(finish(builder))
}

/// Flattens a JSON union column into a column of canonical JSON text.
pub fn json_union_to_text_array(array: &ArrowColumn) -> (result: Result<ArrowColumn, TextError>)
    requires
        text_fits(*array),
    ensures
        flattened(*array, result),
{
    json_union_to_text_array_checked(array).unwrap()
}

/// Flattens a JSON union column into a column of canonical JSON text. `None` where no column of
/// strings can hold the text.
pub fn json_union_to_text_array_checked(array: &ArrowColumn) -> (result: Option<
    Result<ArrowColumn, TextError>,
>)
    ensures
        match result {
            Some(result) => text_fits(*array) && flattened(*array, result),
            None => !text_fits(*array),
        },
{
    let Some(union) = as_union(array) else {
        return Some(Err(TextError::NotUnionArray));
    };
    let Some(encoder) = JsonUnionEncoder::from_union(union) else {
        return Some(Err(TextError::NotJsonUnion));
    };
    match flatten(&encoder) {
        Some(column) => Some(Ok(column)),
        None => None,
    }
}

} // verus!
