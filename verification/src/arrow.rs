//! The Arrow and DataFusion types and calls that the library rests on.
//!
//! Nothing here is proved: each item says what it claims of the call that it makes.

use std::sync::Arc;

use datafusion::arrow::array::{Array, ArrayRef, AsArray, StringViewBuilder, UnionArray};
use datafusion::arrow::datatypes::{
    DataType, Field, Float64Type, Int64Type, UnionFields, UnionMode,
};
use datafusion::common::DataFusionError;
use datafusion::logical_expr::{ColumnarValue, Signature, Volatility};
use vstd::prelude::*;
use vstd::utf8::encode_utf8;

verus! {

/// An Arrow data type.
#[verifier::external_type_specification]
#[verifier::external_body]
pub struct ExDataType(DataType);

/// A named member of an Arrow data type.
#[verifier::external_type_specification]
#[verifier::external_body]
pub struct ExField(Field);

/// An Arrow array whose rows are of varying types.
#[verifier::external_type_specification]
#[verifier::external_body]
pub struct ExUnionArray(UnionArray);

/// An argument or a result of a DataFusion function: an array, or one scalar for all rows.
#[verifier::external_type_specification]
#[verifier::external_body]
pub struct ExColumnarValue(ColumnarValue);

/// What DataFusion reports when it fails.
#[verifier::external_type_specification]
#[verifier::external_body]
pub struct ExDataFusionError(DataFusionError);

/// The argument types that a DataFusion function takes.
#[verifier::external_type_specification]
#[verifier::external_body]
pub struct ExSignature(Signature);

/// A column: an Arrow array of any type, shared.
#[verifier::external_body]
pub struct ArrowColumn {
    array: ArrayRef,
}

/// A column of strings under construction: an Arrow `StringViewBuilder`.
#[verifier::external_body]
pub struct TextBuilder {
    builder: StringViewBuilder,
}

/// The Arrow types that the library names.
#[derive(Debug, Clone, Copy)]
pub enum ArrowKind {
    Null,
    Boolean,
    Int64,
    Float64,
    Utf8,
    Utf8View,
}

/// How far a DataFusion function's result depends on its arguments alone: always, within one
/// query, or not at all.
#[derive(Debug, Clone, Copy)]
pub enum Stability {
    Immutable,
    Stable,
    Volatile,
}

/// The texts of a vector of strings.
pub open spec fn texts(strings: Seq<String>) -> Seq<Seq<char>> {
    Seq::new(strings.len(), |i: int| strings[i]@)
}

// Data types.

/// A number for each Arrow data type, the same for two types exactly where arrow's `==` holds of
/// them.
pub uninterp spec fn type_index(data_type: DataType) -> int;

/// The number of the data type of this kind, which no other kind has.
pub uninterp spec fn kind_index(kind: ArrowKind) -> int;

/// What a field is compared by: its name, the number of its type, whether it may hold nulls, and
/// its metadata.
pub type FieldParts = (Seq<char>, int, bool, Map<Seq<char>, Seq<char>>);

/// A member of a union type: its type id and the parts of its field.
pub type UnionMember = (i8, FieldParts);

/// The parts of a field.
pub uninterp spec fn field_parts(field: Field) -> FieldParts;

/// The number of the sparse union type with these members, which no other members and no kind
/// have.
pub uninterp spec fn sparse_union_index(members: Seq<UnionMember>) -> int;

/// `<DataType as PartialEq>::eq`: whether two data types are equal.
#[verifier::external_body]
pub(crate) fn same_type(a: &DataType, b: &DataType) -> (same: bool)
    ensures
        same == (type_index(*a) == type_index(*b)),
{
    a == b
}

/// The variant of `DataType` of this kind. Arrow's `==` tells it from the variants of the other
/// kinds.
#[verifier::external_body]
pub(crate) fn arrow_type(kind: ArrowKind) -> (data_type: DataType)
    ensures
        type_index(data_type) == kind_index(kind),
        forall|other: ArrowKind| #[trigger]
            kind_index(other) == type_index(data_type) ==> other == kind,
{
    match kind {
        ArrowKind::Null => DataType::Null,
        ArrowKind::Boolean => DataType::Boolean,
        ArrowKind::Int64 => DataType::Int64,
        ArrowKind::Float64 => DataType::Float64,
        ArrowKind::Utf8 => DataType::Utf8,
        ArrowKind::Utf8View => DataType::Utf8View,
    }
}

/// The map that holds these pairs, the later one where two have the same key.
pub open spec fn pair_map(pairs: Seq<(String, String)>) -> Map<Seq<char>, Seq<char>>
    decreases pairs.len(),
{
    if pairs.len() == 0 {
        Map::empty()
    } else {
        pair_map(pairs.drop_last()).insert(pairs.last().0@, pairs.last().1@)
    }
}

/// `Field::new` and `Field::with_metadata`: a field of this name, type, nullability and metadata.
#[verifier::external_body]
pub(crate) fn arrow_field(
    name: &str,
    data_type: DataType,
    nullable: bool,
    metadata: Vec<(String, String)>,
) -> (field: Field)
    ensures
        field_parts(field) == (name@, type_index(data_type), nullable, pair_map(metadata@)),
{
    Field::new(name, data_type, nullable).with_metadata(metadata.into_iter().collect())
}

/// The members of a union type: each field's type id and parts.
pub open spec fn union_members(type_ids: Seq<i8>, fields: Seq<Field>) -> Seq<UnionMember> {
    Seq::new(type_ids.len(), |i: int| (type_ids[i], field_parts(fields[i])))
}

/// `UnionFields::try_new`, which fails only on a negative or a repeated type id or on lists of
/// different lengths: the sparse union type whose members are the fields, each under the type id
/// at its place. Arrow's `==` tells it from a union of other members, compared by their type ids
/// and field parts, and from the variants of the kinds.
#[verifier::external_body]
pub(crate) fn sparse_union(type_ids: Vec<i8>, fields: Vec<Field>) -> (data_type: DataType)
    requires
        type_ids@.len() == fields@.len(),
        type_ids@.no_duplicates(),
        forall|i: int| 0 <= i < type_ids@.len() ==> 0 <= #[trigger] type_ids@[i],
    ensures
        type_index(data_type) == sparse_union_index(union_members(type_ids@, fields@)),
        forall|other: Seq<UnionMember>| #[trigger]
            sparse_union_index(other) == type_index(data_type) ==> other == union_members(
                type_ids@,
                fields@,
            ),
        forall|kind: ArrowKind| #[trigger] kind_index(kind) != type_index(data_type),
{
    DataType::Union(UnionFields::try_new(type_ids, fields).unwrap(), UnionMode::Sparse)
}

/// Whether `<[DataType] as Debug>::fmt` can show the types by this text. There may be several such
/// texts, since it walks hash maps.
pub uninterp spec fn shows_types(data_types: Seq<DataType>, text: Seq<char>) -> bool;

/// `<[DataType] as Debug>::fmt`: the types as they are shown to a programmer, in one of the texts
/// that it can show them by. What such a text holds is left unsaid.
#[verifier::external_body]
pub(crate) fn types_debug(data_types: &[DataType]) -> (text: String)
    ensures
        shows_types(data_types@, text@),
{
    format!("{:?}", data_types)
}

// Signatures.

/// The numbers of the argument types that a signature takes, in order, where it takes exactly one
/// list of types.
pub uninterp spec fn signature_types(signature: Signature) -> Seq<int>;

/// The volatility of a signature.
pub uninterp spec fn signature_stability(signature: Signature) -> Stability;

/// The names of a signature's parameters, `None` where they have no names.
pub uninterp spec fn signature_parameter_names(signature: Signature) -> Option<Seq<Seq<char>>>;

/// `Signature::exact`: the signature that takes exactly these types, in order, with this
/// volatility, and whose parameters have no names.
#[verifier::external_body]
pub(crate) fn exact_signature(data_types: Vec<DataType>, stability: Stability) -> (signature:
    Signature)
    ensures
        signature_types(signature) == Seq::new(
            data_types@.len(),
            |i: int| type_index(data_types@[i]),
        ),
        signature_stability(signature) == stability,
        signature_parameter_names(signature) is None,
{
    let volatility = match stability {
        Stability::Immutable => Volatility::Immutable,
        Stability::Stable => Volatility::Stable,
        Stability::Volatile => Volatility::Volatile,
    };
    Signature::exact(data_types, volatility)
}

// Columns and values.

/// What `ColumnarValue::into_array` makes of a value for a number of rows: a column or an error.
/// `None` where it panics instead, which it does on some scalars only: one that repeated so often
/// exceeds what an array can hold, or one that breaks the rules of its own type, such as a
/// fixed-size binary of another size.
pub uninterp spec fn expansion(value: ColumnarValue, number_rows: usize) -> Option<
    Result<ArrowColumn, ()>,
>;

/// Whether `ColumnarValue::into_array` can fail with this error on a value for a number of rows.
pub uninterp spec fn expansion_fails_with(
    value: ColumnarValue,
    number_rows: usize,
    error: DataFusionError,
) -> bool;

/// Whether a value is a `ColumnarValue::Scalar`, one value for all rows, rather than an array.
pub uninterp spec fn is_scalar(value: ColumnarValue) -> bool;

/// The data type of a value, as `ColumnarValue::data_type` gives it.
pub uninterp spec fn value_type(value: ColumnarValue) -> DataType;

/// The data type of a column.
pub uninterp spec fn column_type(column: ArrowColumn) -> DataType;

/// The union array that a column is, `None` where it is an array of another kind.
pub uninterp spec fn column_union(column: ArrowColumn) -> Option<UnionArray>;

/// The values of a column that is a `BooleanArray`, whether or not they are marked as null.
/// `None` where the column is an array of another kind.
pub uninterp spec fn column_bools(column: ArrowColumn) -> Option<Seq<bool>>;

/// The values of a column that is an `Int64Array`, whether or not they are marked as null.
/// `None` where the column is an array of another kind.
pub uninterp spec fn column_ints(column: ArrowColumn) -> Option<Seq<i64>>;

/// The values of a column that is a `Float64Array`, whether or not they are marked as null, each
/// as the text that its `Display` gives. `None` where the column is an array of another kind.
pub uninterp spec fn column_float_texts(column: ArrowColumn) -> Option<Seq<Seq<char>>>;

/// The values of a column that is a `StringArray`, whether or not they are marked as null.
/// `None` where the column is an array of another kind.
pub uninterp spec fn column_strings(column: ArrowColumn) -> Option<Seq<Seq<char>>>;

/// The rows of a column that is a `StringViewArray`, `None` for a null.
pub uninterp spec fn column_texts(column: ArrowColumn) -> Seq<Option<Seq<char>>>;

/// `ColumnarValue::into_array`: the array itself, or the scalar repeated for every row. The column
/// is of a sparse union type exactly where the value is of that type. A scalar that becomes a union
/// array becomes one of `number_rows` rows.
#[verifier::external_body]
pub(crate) fn into_array(value: ColumnarValue, number_rows: usize) -> (column: Result<
    ArrowColumn,
    DataFusionError,
>)
    requires
        expansion(value, number_rows) is Some,
    ensures
        expansion(value, number_rows) == Some(
            match column {
                Ok(column) => Ok(column),
                Err(_) => Err(()),
            },
        ),
        match column {
            Ok(column) => {
                &&& forall|members: Seq<UnionMember>|
                    (type_index(column_type(column)) == #[trigger] sparse_union_index(members)) == (
                    type_index(value_type(value)) == sparse_union_index(members))
                &&& is_scalar(value) ==> (column_union(column) matches Some(union)
                    ==> union_type_ids(union).len() == number_rows)
            },
            Err(error) => expansion_fails_with(value, number_rows, error),
        },
{
    match value.into_array(number_rows) {
        Ok(array) => Ok(ArrowColumn { array }),
        Err(error) => Err(error),
    }
}

/// `ColumnarValue::Array`: the value that is this column, no scalar and of the column's type, and
/// that `into_array` gives back as it is, whatever the number of rows.
#[verifier::external_body]
pub(crate) fn into_value(column: ArrowColumn) -> (value: ColumnarValue)
    ensures
        forall|number_rows: usize| #[trigger]
            expansion(value, number_rows) == Some(Ok::<ArrowColumn, ()>(column)),
        !is_scalar(value),
        type_index(value_type(value)) == type_index(column_type(column)),
{
    ColumnarValue::Array(column.array)
}

/// `downcast_ref` on the array behind a column: the union array that it is, if it is one, with the
/// column's data type.
#[verifier::external_body]
pub(crate) fn as_union(column: &ArrowColumn) -> (union: Option<&UnionArray>)
    ensures
        column_union(*column) == (match union {
            Some(union) => Some(*union),
            None => None,
        }),
        union matches Some(union) ==> union_type(*union) == column_type(*column),
{
    column.array.as_any().downcast_ref::<UnionArray>()
}

/// `BooleanArray::values` of a column that is such an array.
#[verifier::external_body]
pub(crate) fn bool_values(column: &ArrowColumn) -> (values: Option<Vec<bool>>)
    ensures
        column_bools(*column) == (match values {
            Some(values) => Some(values@),
            None => None,
        }),
{
    column.array.as_boolean_opt().map(|array| array.values().iter().collect())
}

/// `Int64Array::values` of a column that is such an array.
#[verifier::external_body]
pub(crate) fn int_values(column: &ArrowColumn) -> (values: Option<Vec<i64>>)
    ensures
        column_ints(*column) == (match values {
            Some(values) => Some(values@),
            None => None,
        }),
{
    column.array.as_primitive_opt::<Int64Type>().map(|array| array.values().to_vec())
}

/// `Float64Array::values` of a column that is such an array, each value turned into the text that
/// its `Display` gives. Which text that is, and that a finite float's is a JSON number, is left
/// unsaid.
#[verifier::external_body]
pub(crate) fn float_texts(column: &ArrowColumn) -> (values: Option<Vec<String>>)
    ensures
        column_float_texts(*column) == (match values {
            Some(values) => Some(texts(values@)),
            None => None,
        }),
{
    let array = column.array.as_primitive_opt::<Float64Type>()?;
    Some(array.values().iter().map(|value| format!("{value}")).collect())
}

/// `StringArray::value` at every index of a column that is such an array.
#[verifier::external_body]
pub(crate) fn string_values(column: &ArrowColumn) -> (values: Option<Vec<String>>)
    ensures
        column_strings(*column) == (match values {
            Some(values) => Some(texts(values@)),
            None => None,
        }),
{
    let array = column.array.as_string_opt::<i32>()?;
    Some((0..array.len()).map(|i| array.value(i).to_string()).collect())
}

// Union arrays.

/// The data type of a union array.
pub uninterp spec fn union_type(union: UnionArray) -> DataType;

/// The type id of each row of a union array.
pub uninterp spec fn union_type_ids(union: UnionArray) -> Seq<i8>;

/// The columns of a union array's members, in the order of its type's members.
pub uninterp spec fn union_children(union: UnionArray) -> Seq<ArrowColumn>;

/// `<UnionArray as Array>::data_type`: the type that the array was made with.
#[verifier::external_body]
pub(crate) fn union_data_type(union: &UnionArray) -> (data_type: &DataType)
    ensures
        *data_type == union_type(*union),
{
    union.data_type()
}

/// `UnionArray::into_parts` of a copy of the array: the type ids of its rows, and the columns of
/// its members, of which there is one for each member of its type.
#[verifier::external_body]
pub(crate) fn union_parts(union: &UnionArray) -> (parts: (Vec<i8>, Vec<ArrowColumn>))
    ensures
        parts.0@ == union_type_ids(*union),
        parts.1@ == union_children(*union),
        forall|members: Seq<UnionMember>|
            type_index(union_type(*union)) == #[trigger] sparse_union_index(members)
                ==> parts.1@.len() == members.len(),
{
    let (_, type_ids, _, children) = union.clone().into_parts();
    (type_ids.to_vec(), children.into_iter().map(|array| ArrowColumn { array }).collect())
}

// Builders of string columns.

/// The rows that a builder holds so far, `None` for a null.
pub uninterp spec fn builder_texts(builder: TextBuilder) -> Seq<Option<Seq<char>>>;

/// The number of rows that a builder was made for.
pub uninterp spec fn builder_capacity(builder: TextBuilder) -> nat;

/// The number of bytes that a text takes.
pub open spec fn byte_len(text: Seq<char>) -> nat {
    encode_utf8(text).len()
}

/// The number of bytes that a text takes in a builder's blocks: none where it is short enough to
/// stand in its row itself.
pub open spec fn block_len(text: Seq<char>) -> nat {
    if byte_len(text) <= MAX_INLINE_BYTES {
        0
    } else {
        byte_len(text)
    }
}

/// The number of bytes that all the texts together take in a builder's blocks.
pub open spec fn block_bytes(rows: Seq<Option<Seq<char>>>) -> nat
    decreases rows.len(),
{
    if rows.len() == 0 {
        0
    } else {
        block_bytes(rows.drop_last()) + (match rows.last() {
            Some(text) => block_len(text),
            None => 0,
        })
    }
}

/// The most rows that a builder can be made for: each takes sixteen bytes of one allocation.
pub const MAX_ROWS: usize = usize::MAX / 32;

/// The most bytes that one text of a builder may have, so that a block can hold it.
pub const MAX_TEXT_BYTES: u64 = 0xffff_fffe;

/// The most bytes that a text can have to stand in its row itself rather than in a block.
pub const MAX_INLINE_BYTES: u64 = 12;

/// The most blocks that a builder can number. Every block holds a text, so that there are no more
/// of them than rows.
pub const MAX_BLOCKS: u64 = 0xffff_ffff;

/// The most bytes that are sure not to take more than `MAX_BLOCKS` blocks, whatever the number of
/// rows: from the ninth block on a block has room for at least 2^21 bytes, so that two successive
/// ones hold more than that, and one block too many takes more than 2^31 - 4 times as much.
pub const MAX_BLOCK_BYTES: u64 = 0xf_ffff_ff80_0000;

/// `StringViewBuilder::with_capacity`: an empty builder with room for `capacity` rows, which one
/// allocation must be able to hold.
#[verifier::external_body]
pub(crate) fn with_capacity(capacity: usize) -> (builder: TextBuilder)
    requires
        capacity <= MAX_ROWS,
    ensures
        builder_texts(builder) == Seq::<Option<Seq<char>>>::empty(),
        builder_capacity(builder) == capacity,
{
    TextBuilder { builder: StringViewBuilder::with_capacity(capacity) }
}

/// `StringViewBuilder::append_null`: adds a null row.
#[verifier::external_body]
pub(crate) fn append_null(builder: &mut TextBuilder)
    requires
        builder_texts(*old(builder)).len() < builder_capacity(*old(builder)),
    ensures
        builder_texts(*final(builder)) == builder_texts(*old(builder)).push(None),
        builder_capacity(*final(builder)) == builder_capacity(*old(builder)),
{
    builder.builder.append_null()
}

/// `StringViewBuilder::append_value`: adds a row that holds `text`. The bounds keep clear of its
/// panics: on a text or a block whose bytes 32 bits do not count, and on more blocks than they
/// count. Which rows above `MAX_BLOCK_BYTES` still take few enough blocks is left unsaid: it rests
/// on how they fall into blocks and on the room that the allocator gives.
#[verifier::external_body]
pub(crate) fn append_value(builder: &mut TextBuilder, text: &str)
    requires
        builder_texts(*old(builder)).len() < builder_capacity(*old(builder)),
        byte_len(text@) <= MAX_TEXT_BYTES,
        builder_capacity(*old(builder)) <= MAX_BLOCKS || block_bytes(builder_texts(*old(builder)))
            + block_len(text@) <= MAX_BLOCK_BYTES,
    ensures
        builder_texts(*final(builder)) == builder_texts(*old(builder)).push(Some(text@)),
        builder_capacity(*final(builder)) == builder_capacity(*old(builder)),
{
    builder.builder.append_value(text)
}

/// `StringViewBuilder::finish`: the rows of the builder as a `StringViewArray`, whose type is
/// `Utf8View`.
#[verifier::external_body]
pub(crate) fn finish(builder: TextBuilder) -> (column: ArrowColumn)
    ensures
        column_texts(column) == builder_texts(builder),
        type_index(column_type(column)) == kind_index(ArrowKind::Utf8View),
{
    let mut builder = builder.builder;
    ArrowColumn { array: Arc::new(builder.finish()) }
}

} // verus!
