//! The JSON union: its Arrow type, and the values of a union array of that type.

use datafusion::arrow::array::UnionArray;
use datafusion::arrow::datatypes::{DataType, Field};
use vstd::prelude::*;

use crate::arrow::{
    arrow_field, arrow_type, bool_values, column_bools, column_float_texts, column_ints,
    column_strings, field_parts, float_texts, int_values, kind_index, pair_map, same_type,
    sparse_union, sparse_union_index, string_values, texts, type_index, union_children,
    union_data_type, union_members, union_parts, union_type, union_type_ids, ArrowKind,
    UnionMember,
};
use crate::value::{JsonUnionValue, UnionCell};

verus! {

/// The type ids of a JSON union's members.
pub const TYPE_ID_NULL: i8 = 0;

pub const TYPE_ID_BOOL: i8 = 1;

pub const TYPE_ID_INT: i8 = 2;

pub const TYPE_ID_FLOAT: i8 = 3;

pub const TYPE_ID_STR: i8 = 4;

pub const TYPE_ID_ARRAY: i8 = 5;

pub const TYPE_ID_OBJECT: i8 = 6;

/// The metadata of a string member that holds JSON text.
pub open spec fn json_metadata() -> Map<Seq<char>, Seq<char>> {
    Map::empty().insert("is_json"@, "true"@)
}

/// The members of the JSON union type: each one's type id, name, type, nullability and metadata.
pub open spec fn json_union_members() -> Seq<UnionMember> {
    seq![
        (TYPE_ID_NULL, ("null"@, kind_index(ArrowKind::Null), true, Map::empty())),
        (TYPE_ID_BOOL, ("bool"@, kind_index(ArrowKind::Boolean), false, Map::empty())),
        (TYPE_ID_INT, ("int"@, kind_index(ArrowKind::Int64), false, Map::empty())),
        (TYPE_ID_FLOAT, ("float"@, kind_index(ArrowKind::Float64), false, Map::empty())),
        (TYPE_ID_STR, ("str"@, kind_index(ArrowKind::Utf8), false, Map::empty())),
        (TYPE_ID_ARRAY, ("array"@, kind_index(ArrowKind::Utf8), false, json_metadata())),
        (TYPE_ID_OBJECT, ("object"@, kind_index(ArrowKind::Utf8), false, json_metadata())),
    ]
}

/// The number of the JSON union type.
pub open spec fn json_union_index() -> int {
    sparse_union_index(json_union_members())
}

/// That the JSON union type is told from every other sparse union type and from every kind.
pub open spec fn json_union_is_distinct() -> bool {
    &&& forall|members: Seq<UnionMember>| #[trigger]
        sparse_union_index(members) == json_union_index() ==> members == json_union_members()
    &&& forall|kind: ArrowKind| #[trigger] kind_index(kind) != json_union_index()
}

/// The metadata pairs of a string member that holds JSON text.
fn json_metadata_pairs() -> (pairs: Vec<(String, String)>)
    ensures
        pair_map(pairs@) == json_metadata(),
{
    let mut pairs: Vec<(String, String)> = Vec::new();
    pairs.push(("is_json".to_owned(), "true".to_owned()));
    proof {
        reveal_with_fuel(pair_map, 2);
        assert(pairs@.drop_last() =~= Seq::<(String, String)>::empty());
    }
    pairs
}

/// A member of the JSON union type that is not nullable and carries no metadata.
fn plain_member(name: &str, kind: ArrowKind) -> (field: Field)
    ensures
        field_parts(field) == (
            name@,
            kind_index(kind),
            false,
            Map::<Seq<char>, Seq<char>>::empty(),
        ),
{
    arrow_field(name, arrow_type(kind), false, Vec::new())
}

/// The Arrow type of the JSON union.
pub fn json_union_data_type() -> (data_type: DataType)
    ensures
        type_index(data_type) == json_union_index(),
        json_union_is_distinct(),
{
    let type_ids: Vec<i8> = vec![
        TYPE_ID_NULL,
        TYPE_ID_BOOL,
        TYPE_ID_INT,
        TYPE_ID_FLOAT,
        TYPE_ID_STR,
        TYPE_ID_ARRAY,
        TYPE_ID_OBJECT,
    ];
    let fields: Vec<Field> = vec![
        arrow_field("null", arrow_type(ArrowKind::Null), true, Vec::new()),
        plain_member("bool", ArrowKind::Boolean),
        plain_member("int", ArrowKind::Int64),
        plain_member("float", ArrowKind::Float64),
        plain_member("str", ArrowKind::Utf8),
        arrow_field("array", arrow_type(ArrowKind::Utf8), false, json_metadata_pairs()),
        arrow_field("object", arrow_type(ArrowKind::Utf8), false, json_metadata_pairs()),
    ];
    assert(union_members(type_ids@, fields@) =~= json_union_members());
    sparse_union(type_ids, fields)
}

/// Whether `data_type` is the Arrow type of the JSON union.
pub fn is_json_union(data_type: &DataType) -> (is: bool)
    ensures
        is == (type_index(*data_type) == json_union_index()),
        json_union_is_distinct(),
{
    same_type(data_type, &json_union_data_type())
}

/// What row `i` holds: the entry at `i` of the column that the row's type id chooses.
pub open spec fn column_cell(
    type_ids: Seq<i8>,
    bools: Seq<bool>,
    ints: Seq<i64>,
    floats: Seq<Seq<char>>,
    strings: Seq<Seq<char>>,
    arrays: Seq<Seq<char>>,
    objects: Seq<Seq<char>>,
    i: int,
) -> UnionCell {
    if type_ids[i] == TYPE_ID_NULL {
        UnionCell::JsonNull
    } else if type_ids[i] == TYPE_ID_BOOL {
        UnionCell::Bool(bools[i])
    } else if type_ids[i] == TYPE_ID_INT {
        UnionCell::Int(ints[i])
    } else if type_ids[i] == TYPE_ID_FLOAT {
        UnionCell::Float(floats[i])
    } else if type_ids[i] == TYPE_ID_STR {
        UnionCell::Str(strings[i])
    } else if type_ids[i] == TYPE_ID_ARRAY {
        UnionCell::Array(arrays[i])
    } else {
        UnionCell::Object(objects[i])
    }
}

/// The rows of a JSON union with these columns, as long as each column has an entry for every row
/// and every type id is that of a member.
pub open spec fn column_cells(
    type_ids: Seq<i8>,
    bools: Seq<bool>,
    ints: Seq<i64>,
    floats: Seq<Seq<char>>,
    strings: Seq<Seq<char>>,
    arrays: Seq<Seq<char>>,
    objects: Seq<Seq<char>>,
) -> Option<Seq<UnionCell>> {
    let rows = type_ids.len();
    if bools.len() == rows && ints.len() == rows && floats.len() == rows && strings.len() == rows
        && arrays.len() == rows && objects.len() == rows && (forall|i: int|
        0 <= i < rows ==> TYPE_ID_NULL <= #[trigger] type_ids[i] <= TYPE_ID_OBJECT) {
        Some(
            Seq::new(
                rows,
                |i: int| column_cell(type_ids, bools, ints, floats, strings, arrays, objects, i),
            ),
        )
    } else {
        None
    }
}

/// The rows of a union array that is a JSON union: its type is the JSON union type, and each
/// member's column is of the member's type.
pub open spec fn json_union_cells(union: UnionArray) -> Option<Seq<UnionCell>> {
    let children = union_children(union);
    if type_index(union_type(union)) != json_union_index() {
        None
    } else {
        match (
            column_bools(children[TYPE_ID_BOOL as int]),
            column_ints(children[TYPE_ID_INT as int]),
            column_float_texts(children[TYPE_ID_FLOAT as int]),
            column_strings(children[TYPE_ID_STR as int]),
            column_strings(children[TYPE_ID_ARRAY as int]),
            column_strings(children[TYPE_ID_OBJECT as int]),
        ) {
            (
                Some(bools),
                Some(ints),
                Some(floats),
                Some(strings),
                Some(arrays),
                Some(objects),
            ) => column_cells(
                union_type_ids(union),
                bools,
                ints,
                floats,
                strings,
                arrays,
                objects,
            ),
            _ => None,
        }
    }
}

/// The texts of some strings are theirs, one by one.
pub proof fn texts_are_those_of_the_strings(strings: Seq<String>)
    ensures
        texts(strings).len() == strings.len(),
        forall|i: int| 0 <= i < strings.len() ==> #[trigger] texts(strings)[i] == strings[i]@,
{
}

/// Any other type than the JSON union's, be it a union of other members or a kind, has another
/// number.
pub proof fn other_types_are_told_apart(members: Seq<UnionMember>, kind: ArrowKind)
    requires
        json_union_is_distinct(),
    ensures
        sparse_union_index(members) == json_union_index() <==> members == json_union_members(),
        kind_index(kind) != json_union_index(),
{
}

/// Columns make a union exactly where each has as many entries as there are type ids and every
/// type id is one of the seven, for any number of rows.
pub proof fn columns_that_match_make_a_union(
    type_ids: Seq<i8>,
    bools: Seq<bool>,
    ints: Seq<i64>,
    floats: Seq<Seq<char>>,
    strings: Seq<Seq<char>>,
    arrays: Seq<Seq<char>>,
    objects: Seq<Seq<char>>,
)
    ensures
        column_cells(type_ids, bools, ints, floats, strings, arrays, objects) is Some <==> {
            &&& bools.len() == type_ids.len()
            &&& ints.len() == type_ids.len()
            &&& floats.len() == type_ids.len()
            &&& strings.len() == type_ids.len()
            &&& arrays.len() == type_ids.len()
            &&& objects.len() == type_ids.len()
            &&& forall|i: int| 0 <= i < type_ids.len() ==> 0 <= #[trigger] type_ids[i] <= 6
        },
{
}

/// A union array makes rows exactly where it is of the JSON union type, its member columns are of
/// the members' types and as long as the array, and every type id is one of the seven.
pub proof fn unions_that_match_make_rows(union: UnionArray)
    ensures
        json_union_cells(union) is Some <==> {
            let ids = union_type_ids(union);
            let children = union_children(union);
            &&& type_index(union_type(union)) == json_union_index()
            &&& column_bools(children[1]) matches Some(column) && column.len() == ids.len()
            &&& column_ints(children[2]) matches Some(column) && column.len() == ids.len()
            &&& column_float_texts(children[3]) matches Some(column) && column.len() == ids.len()
            &&& column_strings(children[4]) matches Some(column) && column.len() == ids.len()
            &&& column_strings(children[5]) matches Some(column) && column.len() == ids.len()
            &&& column_strings(children[6]) matches Some(column) && column.len() == ids.len()
            &&& forall|i: int| 0 <= i < ids.len() ==> 0 <= #[trigger] ids[i] <= 6
        },
{
}

/// Every row of a union array is what its type id says, and holds the entry at its place of that
/// member's own column.
pub proof fn rows_hold_their_members_entries(union: UnionArray, cells: Seq<UnionCell>, i: int)
    requires
        json_union_cells(union) == Some(cells),
        0 <= i < union_type_ids(union).len(),
    ensures
        cells.len() == union_type_ids(union).len(),
        0 <= union_type_ids(union)[i] <= 6,
        ({
            let id = union_type_ids(union)[i];
            let children = union_children(union);
            &&& id == 0 ==> cells[i] == UnionCell::JsonNull
            &&& id == 1 ==> cells[i] == UnionCell::Bool(column_bools(children[1])->0[i])
            &&& id == 2 ==> cells[i] == UnionCell::Int(column_ints(children[2])->0[i])
            &&& id == 3 ==> cells[i] == UnionCell::Float(column_float_texts(children[3])->0[i])
            &&& id == 4 ==> cells[i] == UnionCell::Str(column_strings(children[4])->0[i])
            &&& id == 5 ==> cells[i] == UnionCell::Array(column_strings(children[5])->0[i])
            &&& id == 6 ==> cells[i] == UnionCell::Object(column_strings(children[6])->0[i])
        }),
{
}

/// The rows of a JSON union, column by column. Every column has an entry for each row; the
/// row's type id says which of them counts.
#[derive(Debug)]
pub struct JsonUnionEncoder {
    bools: Vec<bool>,
    ints: Vec<i64>,
    floats: Vec<String>,
    strings: Vec<String>,
    arrays: Vec<String>,
    objects: Vec<String>,
    type_ids: Vec<i8>,
}

impl View for JsonUnionEncoder {
    type V = Seq<UnionCell>;

    closed spec fn view(&self) -> Seq<UnionCell> {
        self.cells()->0
    }
}

impl JsonUnionEncoder {
    spec fn cells(self) -> Option<Seq<UnionCell>> {
        column_cells(
            self.type_ids@,
            self.bools@,
            self.ints@,
            texts(self.floats@),
            texts(self.strings@),
            texts(self.arrays@),
            texts(self.objects@),
        )
    }

    #[verifier::type_invariant]
    spec fn well_formed(self) -> bool {
        self.cells() is Some
    }

    /// The JSON union with these columns. `None` where a column is longer or shorter than the
    /// list of type ids, or where a type id is not that of a member.
    pub fn from_columns(
        type_ids: Vec<i8>,
        bools: Vec<bool>,
        ints: Vec<i64>,
        floats: Vec<String>,
        strings: Vec<String>,
        arrays: Vec<String>,
        objects: Vec<String>,
    ) -> (encoder: Option<Self>)
        ensures
            column_cells(
                type_ids@,
                bools@,
                ints@,
                texts(floats@),
                texts(strings@),
                texts(arrays@),
                texts(objects@),
            ) == (match encoder {
                Some(encoder) => Some(encoder@),
                None => None,
            }),
            encoder is Some <==> {
                &&& bools@.len() == type_ids@.len()
                &&& ints@.len() == type_ids@.len()
                &&& floats@.len() == type_ids@.len()
                &&& strings@.len() == type_ids@.len()
                &&& arrays@.len() == type_ids@.len()
                &&& objects@.len() == type_ids@.len()
                &&& forall|i: int| 0 <= i < type_ids@.len() ==> 0 <= #[trigger] type_ids@[i] <= 6
            },
            encoder matches Some(encoder) ==> encoder@.len() == type_ids@.len() && forall|i: int|
                #![trigger encoder@[i]]
                0 <= i < type_ids@.len() ==> {
                    &&& type_ids@[i] == 0 ==> encoder@[i] == UnionCell::JsonNull
                    &&& type_ids@[i] == 1 ==> encoder@[i] == UnionCell::Bool(bools@[i])
                    &&& type_ids@[i] == 2 ==> encoder@[i] == UnionCell::Int(ints@[i])
                    &&& type_ids@[i] == 3 ==> encoder@[i] == UnionCell::Float(floats@[i]@)
                    &&& type_ids@[i] == 4 ==> encoder@[i] == UnionCell::Str(strings@[i]@)
                    &&& type_ids@[i] == 5 ==> encoder@[i] == UnionCell::Array(arrays@[i]@)
                    &&& type_ids@[i] == 6 ==> encoder@[i] == UnionCell::Object(objects@[i]@)
                },
    {
        let rows: usize = type_ids.len();
        if bools.len() != rows || ints.len() != rows || floats.len() != rows || strings.len() != rows
            || arrays.len() != rows || objects.len() != rows {
            return None;
        }
        for i in 0..rows
            invariant
                rows == type_ids@.len(),
                forall|k: int|
                    0 <= k < i ==> TYPE_ID_NULL <= #[trigger] type_ids@[k] <= TYPE_ID_OBJECT,
        {
            if type_ids[i] < TYPE_ID_NULL || type_ids[i] > TYPE_ID_OBJECT {
                return None;
            }
        }
        Some(JsonUnionEncoder { bools, ints, floats, strings, arrays, objects, type_ids })
    }

    /// The rows of a union array. `None` where it is not a JSON union.
    pub fn from_union(union: &UnionArray) -> (encoder: Option<Self>)
        ensures
            json_union_cells(*union) == (match encoder {
                Some(encoder) => Some(encoder@),
                None => None,
            }),
            json_union_is_distinct(),
    {
        if !is_json_union(union_data_type(union)) {
            return None;
        }
        let (type_ids, children) = union_parts(union);
        assert(children@.len() == json_union_members().len());
        match (
            bool_values(&children[1]),
            int_values(&children[2]),
            float_texts(&children[3]),
            string_values(&children[4]),
            string_values(&children[5]),
            string_values(&children[6]),
        ) {
            (
                Some(bools),
                Some(ints),
                Some(floats),
                Some(strings),
                Some(arrays),
                Some(objects),
            ) => Self::from_columns(type_ids, bools, ints, floats, strings, arrays, objects),
            _ => None,
        }
    }

    /// The number of rows.
    pub fn len(&self) -> (len: usize)
        ensures
            len == self@.len(),
    {
        proof {
            use_type_invariant(self);
        }
        self.type_ids.len()
    }

    /// What row `idx` holds.
    pub fn get_value(&self, idx: usize) -> (value: JsonUnionValue<'_>)
        requires
            idx < self@.len(),
        ensures
            value@ == self@[idx as int],
            match self@[idx as int] {
                UnionCell::JsonNull => value is JsonNull,
                UnionCell::Bool(b) => value == JsonUnionValue::Bool(b),
                UnionCell::Int(i) => value == JsonUnionValue::Int(i),
                UnionCell::Float(text) => value matches JsonUnionValue::Float(held) && held@
                    == text,
                UnionCell::Str(s) => value matches JsonUnionValue::Str(held) && held@ == s,
                UnionCell::Array(json) => value matches JsonUnionValue::Array(held) && held@
                    == json,
                UnionCell::Object(json) => value matches JsonUnionValue::Object(held) && held@
                    == json,
            },
    {
        proof {
            use_type_invariant(self);
        }
        let type_id: i8 = self.type_ids[idx];
        if type_id == TYPE_ID_NULL {
            JsonUnionValue::JsonNull
        } else if type_id == TYPE_ID_BOOL {
            JsonUnionValue::Bool(self.bools[idx])
        } else if type_id == TYPE_ID_INT {
            JsonUnionValue::Int(self.ints[idx])
        } else if type_id == TYPE_ID_FLOAT {
            JsonUnionValue::Float(self.floats[idx].as_str())
        } else if type_id == TYPE_ID_STR {
            JsonUnionValue::Str(self.strings[idx].as_str())
        } else if type_id == TYPE_ID_ARRAY {
            JsonUnionValue::Array(self.arrays[idx].as_str())
        } else {
            JsonUnionValue::Object(self.objects[idx].as_str())
        }
    }
}

} // verus!
