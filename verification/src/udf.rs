//! The scalar function `json_union_to_text`.

use datafusion::arrow::array::UnionArray;
use datafusion::arrow::datatypes::DataType;
use datafusion::logical_expr::{ColumnarValue, Signature};
use vstd::prelude::*;

use crate::arrow::{
    arrow_type, column_bools, column_float_texts, column_ints, column_strings, column_texts,
    column_type, column_union, exact_signature, expansion, expansion_fails_with, into_array,
    into_value, is_scalar, kind_index, shows_types, signature_parameter_names, signature_stability,
    signature_types, type_index, types_debug, union_children, union_type, union_type_ids,
    value_type, ArrowColumn, ArrowKind, Stability,
};
use crate::decimal::decimal;
use crate::encoder::{is_json_union, json_union_data_type, json_union_index, json_union_is_distinct};
use crate::error::TextError;
use crate::escape::json_string;
use crate::flatten::{
    flat_texts, flattened, has_json_union_type, is_text_column, json_union_to_text_array_checked,
    json_unions_have_texts, text_fits, texts_say_what_the_union_holds,
};
use crate::json::{read_json, Json};

verus! {

/// Flattens the heterogeneous JSON union that `json_get` produces into a single `Utf8View` column
/// of canonical JSON text: scalars render as `true` / `42` / `1.5`, strings are JSON-quoted and
/// escaped, and array/object arms (already raw JSON text) pass through. A JSON `null` arm becomes
/// a SQL `NULL`.
///
/// Useful when a JSON-union column must be materialized somewhere that can't represent an Arrow
/// `Union` — e.g. the Parquet writer, which rejects unions.
#[derive(Debug, PartialEq, Eq, Hash)]
pub struct JsonUnionToText {
    signature: Signature,
    aliases: [String; 1],
}

/// The numbers of some data types.
pub open spec fn type_indices(data_types: Seq<DataType>) -> Seq<int> {
    Seq::new(data_types.len(), |i: int| type_index(data_types[i]))
}

/// Whether the argument types are exactly one JSON union.
pub open spec fn takes(arg_types: Seq<DataType>) -> bool {
    type_indices(arg_types) == seq![json_union_index()]
}

/// The column that the first argument comes to, or that it cannot be made into one. `None` where
/// there is no argument.
pub open spec fn first_column(args: Seq<ColumnarValue>, number_rows: usize) -> Option<
    Result<ArrowColumn, ()>,
> {
    if args.len() == 0 {
        None
    } else {
        Some(expansion(args[0], number_rows)->0)
    }
}

/// Whether the first argument, if there is one, can be made into a column or be refused.
pub open spec fn first_expands(args: Seq<ColumnarValue>, number_rows: usize) -> bool {
    args.len() > 0 ==> expansion(args[0], number_rows) is Some
}

/// Whether a column of strings can hold the text of the first argument.
pub open spec fn first_fits(args: Seq<ColumnarValue>, number_rows: usize) -> bool {
    match first_column(args, number_rows) {
        Some(Ok(column)) => text_fits(column),
        _ => true,
    }
}

/// Whether `value` is the array `column`, for any number of rows.
pub open spec fn is_column(value: ColumnarValue, column: ArrowColumn) -> bool {
    &&& !is_scalar(value)
    &&& type_index(value_type(value)) == type_index(column_type(column))
    &&& forall|number_rows: usize| #[trigger]
        expansion(value, number_rows) == Some(Ok::<ArrowColumn, ()>(column))
}

/// Whether `value` is, for any number of rows, an array of type `Utf8View` that holds these rows.
pub open spec fn is_text_value(value: ColumnarValue, rows: Seq<Option<Seq<char>>>) -> bool {
    &&& !is_scalar(value)
    &&& type_index(value_type(value)) == kind_index(ArrowKind::Utf8View)
    &&& forall|number_rows: usize| (#[trigger] expansion(value, number_rows) matches Some(
        Ok(column),
    ) && is_text_column(column, rows))
}

/// Whether a column has this number of rows where it is a union array.
pub open spec fn has_rows(column: ArrowColumn, number_rows: usize) -> bool {
    column_union(column) matches Some(union) ==> union_type_ids(union).len() == number_rows
}

/// That `result` is the type that the function returns for these argument types: `Utf8View` for
/// one JSON union, or an error that shows the types.
pub open spec fn returned(arg_types: Seq<DataType>, result: Result<DataType, TextError>) -> bool {
    match result {
        Ok(data_type) => takes(arg_types) && type_index(data_type) == kind_index(
            ArrowKind::Utf8View,
        ),
        Err(error) => !takes(arg_types) && (error matches TextError::ArgumentTypes(got)
            && shows_types(arg_types, got@)),
    }
}

/// That making the first argument into a column failed with the error that `error` holds.
pub open spec fn conversion_failed(
    args: Seq<ColumnarValue>,
    number_rows: usize,
    error: TextError,
) -> bool {
    error matches TextError::Conversion(error) && expansion_fails_with(args[0], number_rows, error)
}

/// Whether the first argument is of the JSON union type.
pub open spec fn first_is_json_union(args: Seq<ColumnarValue>) -> bool {
    args.len() > 0 && type_index(value_type(args[0])) == json_union_index()
}

/// Whether the first argument's column is a JSON union array whose member columns hold what its
/// type says.
pub open spec fn first_flattens(args: Seq<ColumnarValue>, number_rows: usize) -> bool {
    first_column(args, number_rows) matches Some(Ok(column)) && flat_texts(column) is Ok
}

/// That `result` is what the function gives for these arguments: its first argument flattened, or
/// the error that says why there is nothing to flatten. An argument that is flattened is of the
/// JSON union type, as is its column, and a scalar is flattened for every row.
pub open spec fn invoked(
    args: Seq<ColumnarValue>,
    number_rows: usize,
    result: Result<ColumnarValue, TextError>,
) -> bool {
    match first_column(args, number_rows) {
        None => result == Err::<ColumnarValue, TextError>(TextError::NoArgument),
        Some(Err(_)) => result matches Err(error) && conversion_failed(args, number_rows, error),
        Some(Ok(column)) => match (flat_texts(column), result) {
            (Ok(rows), Ok(value)) => {
                &&& first_is_json_union(args)
                &&& has_json_union_type(column)
                &&& is_scalar(args[0]) ==> rows.len() == number_rows
                &&& is_text_value(value, rows)
            },
            (Err(expected), Err(error)) => error == expected,
            _ => false,
        },
    }
}

/// What is asked of the arguments of a call: nothing where there is none; else that the first can
/// be made into a column, for the number of rows of the call, and that the text of that column
/// fits.
pub proof fn only_the_first_argument_counts(args: Seq<ColumnarValue>, number_rows: usize)
    ensures
        args.len() == 0 ==> first_expands(args, number_rows) && first_fits(args, number_rows),
        args.len() > 0 ==> (first_expands(args, number_rows) <==> expansion(
            args[0],
            number_rows,
        ) is Some),
        args.len() > 0 && expansion(args[0], number_rows) is Some ==> (first_fits(args, number_rows)
            <==> (expansion(args[0], number_rows) matches Some(Ok(column)) ==> text_fits(column))),
{
}

/// What the first argument of a call comes to: nothing exactly where there is no argument, else
/// what it expands to for the number of rows of the call.
pub proof fn the_first_argument_is_expanded(
    args: Seq<ColumnarValue>,
    number_rows: usize,
    column: ArrowColumn,
)
    ensures
        first_column(args, number_rows) is None <==> args.len() == 0,
        args.len() > 0 && expansion(args[0], number_rows) is Some ==> first_column(
            args,
            number_rows,
        ) == expansion(args[0], number_rows),
        first_is_json_union(args) <==> args.len() > 0 && type_index(value_type(args[0]))
            == json_union_index(),
        args.len() > 0 && expansion(args[0], number_rows) == Some(Ok::<ArrowColumn, ()>(column))
            ==> (first_flattens(args, number_rows) <==> flat_texts(column) is Ok),
        has_rows(column, number_rows) <==> (column_union(column) matches Some(union)
            ==> union_type_ids(union).len() == number_rows),
{
}

/// A call flattens its first argument, whatever the number of rows: it fails for want of an
/// argument exactly where there is none, it hands on the error of an argument that expands to
/// none, and else it gives what the flattening of the argument's column gives, as an array of the
/// type `Utf8View` or as the error.
pub proof fn calls_flatten_their_first_argument(
    args: Seq<ColumnarValue>,
    number_rows: usize,
    result: Result<ColumnarValue, TextError>,
    column: ArrowColumn,
    rows: usize,
)
    requires
        args.len() > 0 ==> expansion(args[0], number_rows) is Some,
        invoked(args, number_rows, result),
    ensures
        result == Err::<ColumnarValue, TextError>(TextError::NoArgument) <==> args.len() == 0,
        args.len() > 0 && expansion(args[0], number_rows) == Some(Err::<ArrowColumn, ()>(()))
            ==> (result matches Err(TextError::Conversion(error)) && expansion_fails_with(
            args[0],
            number_rows,
            error,
        )),
        args.len() > 0 && expansion(args[0], number_rows) == Some(Ok::<ArrowColumn, ()>(column))
            ==> match result {
            Ok(value) => {
                &&& !is_scalar(value)
                &&& type_index(value_type(value)) == kind_index(ArrowKind::Utf8View)
                &&& expansion(value, rows) matches Some(Ok(text)) && flattened(column, Ok(text))
            },
            Err(error) => flattened(column, Err(error)),
        },
{
}

/// A call gives a value exactly where its first argument expands, for the number of rows of the
/// call, to a union array of the JSON union type whose member columns are of the members' types
/// and as long as the array, and whose type ids are all among the seven.
pub proof fn calls_on_json_unions_give_values(
    args: Seq<ColumnarValue>,
    number_rows: usize,
    result: Result<ColumnarValue, TextError>,
    column: ArrowColumn,
    union: UnionArray,
)
    requires
        args.len() > 0,
        expansion(args[0], number_rows) == Some(Ok::<ArrowColumn, ()>(column)),
        invoked(args, number_rows, result),
    ensures
        column_union(column) is None <==> result == Err::<ColumnarValue, TextError>(
            TextError::NotUnionArray,
        ),
        column_union(column) == Some(union) ==> (result is Ok <==> {
            let ids = union_type_ids(union);
            let children = union_children(union);
            &&& type_index(union_type(union)) == json_union_index()
            &&& column_bools(children[1]) matches Some(entries) && entries.len() == ids.len()
            &&& column_ints(children[2]) matches Some(entries) && entries.len() == ids.len()
            &&& column_float_texts(children[3]) matches Some(entries) && entries.len() == ids.len()
            &&& column_strings(children[4]) matches Some(entries) && entries.len() == ids.len()
            &&& column_strings(children[5]) matches Some(entries) && entries.len() == ids.len()
            &&& column_strings(children[6]) matches Some(entries) && entries.len() == ids.len()
            &&& forall|i: int| 0 <= i < ids.len() ==> 0 <= #[trigger] ids[i] <= 6
        }),
        column_union(column) is Some ==> result is Ok || result == Err::<ColumnarValue, TextError>(
            TextError::NotJsonUnion,
        ),
{
    json_unions_have_texts(column, union);
}

/// What a call gives holds, for each row of the union array that its first argument expands to,
/// the text of the entry of the member's column that the row's type id chooses, and a null exactly
/// where that is the null member.
pub proof fn calls_give_the_text_of_each_row(
    args: Seq<ColumnarValue>,
    number_rows: usize,
    value: ColumnarValue,
    column: ArrowColumn,
    union: UnionArray,
    rows: usize,
    i: int,
)
    requires
        args.len() > 0,
        expansion(args[0], number_rows) == Some(Ok::<ArrowColumn, ()>(column)),
        column_union(column) == Some(union),
        invoked(args, number_rows, Ok(value)),
        0 <= i < union_type_ids(union).len(),
    ensures
        expansion(value, rows) is Some,
        expansion(value, rows)->0 is Ok,
        column_texts(expansion(value, rows)->0->Ok_0).len() == union_type_ids(union).len(),
        ({
            let id = union_type_ids(union)[i];
            let children = union_children(union);
            let text = column_texts(expansion(value, rows)->0->Ok_0)[i];
            &&& 0 <= id <= 6
            &&& text is None <==> id == 0
            &&& id == 1 ==> {
                let b = column_bools(children[1])->0[i];
                text == Some(if b { "true"@ } else { "false"@ }) && read_json(text->0) == Some(
                    Json::Bool(b),
                )
            }
            &&& id == 2 ==> {
                let n = column_ints(children[2])->0[i] as int;
                text == Some(decimal(n)) && read_json(text->0) == Some(Json::Number(n, 0))
            }
            &&& id == 3 ==> text == Some(column_float_texts(children[3])->0[i])
            &&& id == 4 ==> {
                let s = column_strings(children[4])->0[i];
                text == Some(json_string(s)) && read_json(text->0) == Some(Json::Text(s))
            }
            &&& id == 5 ==> text == Some(column_strings(children[5])->0[i])
            &&& id == 6 ==> text == Some(column_strings(children[6])->0[i])
        }),
{
    let text_column = expansion(value, rows)->0->Ok_0;
    texts_say_what_the_union_holds(column, union, column_texts(text_column), i);
}

/// The value of a column is that column, for any number of rows.
pub proof fn columns_are_their_values(value: ColumnarValue, column: ArrowColumn, rows: usize)
    requires
        is_column(value, column),
    ensures
        !is_scalar(value),
        type_index(value_type(value)) == type_index(column_type(column)),
        expansion(value, rows) == Some(Ok::<ArrowColumn, ()>(column)),
{
}

/// The function returns a type exactly where there is one argument and that is a JSON union: the
/// type is `Utf8View`. Else it returns an error that shows the argument types.
pub proof fn one_json_union_is_taken(
    arg_types: Seq<DataType>,
    result: Result<DataType, TextError>,
)
    requires
        returned(arg_types, result),
    ensures
        result is Ok <==> arg_types.len() == 1 && type_index(arg_types[0]) == json_union_index(),
        result matches Ok(data_type) ==> type_index(data_type) == kind_index(ArrowKind::Utf8View),
        result matches Err(error) ==> (error matches TextError::ArgumentTypes(got) && shows_types(
            arg_types,
            got@,
        )),
{
    if arg_types.len() == 1 && type_index(arg_types[0]) == json_union_index() {
        assert(type_indices(arg_types) =~= seq![json_union_index()]);
    }
    if takes(arg_types) {
        assert(type_indices(arg_types).len() == 1);
        assert(type_indices(arg_types)[0] == type_index(arg_types[0]));
    }
}

/// The types that the function declares are the ones that it returns a type for: argument types
/// that match its signature are taken.
pub proof fn declared_types_are_taken(udf: JsonUnionToText, arg_types: Seq<DataType>)
    requires
        signature_types(udf.declared()) == seq![json_union_index()],
    ensures
        takes(arg_types) <==> type_indices(arg_types) == signature_types(udf.declared()),
{
}

/// What the function gives is of the type that it returns for a JSON union: whatever value a call
/// gives, it is of the type `Utf8View`, and so is the column that it comes to for any number of
/// rows.
pub proof fn results_have_the_returned_type(
    args: Seq<ColumnarValue>,
    number_rows: usize,
    value: ColumnarValue,
    rows: usize,
)
    requires
        invoked(args, number_rows, Ok(value)),
    ensures
        type_index(value_type(value)) == kind_index(ArrowKind::Utf8View),
        expansion(value, rows) matches Some(Ok(column)) && type_index(column_type(column))
            == kind_index(ArrowKind::Utf8View),
{
}

/// A scalar is flattened for every row: what a call gives for it is an array of `number_rows` rows.
pub proof fn scalars_fill_every_row(
    args: Seq<ColumnarValue>,
    number_rows: usize,
    value: ColumnarValue,
    rows: usize,
)
    requires
        args.len() > 0,
        is_scalar(args[0]),
        invoked(args, number_rows, Ok(value)),
    ensures
        !is_scalar(value),
        expansion(value, rows) matches Some(Ok(column)) && column_texts(column).len()
            == number_rows,
{
}

/// What the function gives is not taken again: a call on the value of an earlier call fails.
pub proof fn results_are_not_taken(
    args: Seq<ColumnarValue>,
    number_rows: usize,
    value: ColumnarValue,
    rows: usize,
    result: Result<ColumnarValue, TextError>,
)
    requires
        invoked(args, number_rows, Ok(value)),
        invoked(seq![value], rows, result),
    ensures
        result is Err,
{
}

/// Planning and execution agree on one argument. Where the function returns no type for it, a
/// call fails. Where it returns one, a call gives a value of that type, for any number of rows, if
/// the argument's column holds what its type says, and fails otherwise.
pub proof fn planning_and_execution_agree(
    arg_type: DataType,
    planned: Result<DataType, TextError>,
    arg: ColumnarValue,
    number_rows: usize,
    result: Result<ColumnarValue, TextError>,
    rows: usize,
)
    requires
        type_index(value_type(arg)) == type_index(arg_type),
        returned(seq![arg_type], planned),
        invoked(seq![arg], number_rows, result),
    ensures
        planned is Err ==> result is Err,
        result is Ok <==> first_flattens(seq![arg], number_rows),
        planned matches Ok(data_type) ==> (result matches Ok(value) ==> {
            &&& type_index(value_type(value)) == type_index(data_type)
            &&& expansion(value, rows) matches Some(Ok(column)) && type_index(column_type(column))
                == type_index(data_type)
        }),
{
    assert(type_indices(seq![arg_type])[0] == type_index(arg_type));
    if first_is_json_union(seq![arg]) {
        assert(type_indices(seq![arg_type]) =~= seq![json_union_index()]);
    }
}

/// The first argument as a column.
pub fn argument_column(args: Vec<ColumnarValue>, number_rows: usize) -> (column: Result<
    ArrowColumn,
    TextError,
>)
    requires
        first_expands(args@, number_rows),
    ensures
        match first_column(args@, number_rows) {
            None => column == Err::<ArrowColumn, TextError>(TextError::NoArgument),
            Some(Err(_)) => column matches Err(error) && conversion_failed(
                args@,
                number_rows,
                error,
            ),
            Some(Ok(first)) => {
                &&& column == Ok::<ArrowColumn, TextError>(first)
                &&& type_index(column_type(first)) == json_union_index() <==> first_is_json_union(
                    args@,
                )
                &&& is_scalar(args@[0]) ==> has_rows(first, number_rows)
            },
        },
{
    if args.len() == 0 {
        return Err(TextError::NoArgument);
    }
    let mut args = args;
    let arg = args.swap_remove(0);
    match into_array(arg, number_rows) {
        Ok(column) => Ok(column),
        Err(error) => Err(TextError::Conversion(error)),
    }
}

/// The value that is this column.
pub fn column_value(column: ArrowColumn) -> (value: ColumnarValue)
    ensures
        is_column(value, column),
{
    into_value(column)
}

impl JsonUnionToText {
    #[verifier::type_invariant]
    spec fn well_formed(self) -> bool {
        &&& signature_types(self.signature) == seq![json_union_index()]
        &&& signature_stability(self.signature) == Stability::Immutable
        &&& signature_parameter_names(self.signature) is None
        &&& self.aliases@[0]@ == "json_union_to_text"@
    }

    /// The signature that the function declares.
    pub closed spec fn declared(self) -> Signature {
        self.signature
    }

    /// The one name that the function goes by.
    pub closed spec fn alias(self) -> Seq<char> {
        self.aliases@[0]@
    }

    /// The function's name.
    pub fn name(&self) -> (name: &str)
        ensures
            name@ == self.alias(),
            name@ == "json_union_to_text"@,
    {
        proof {
            use_type_invariant(self);
        }
        self.aliases[0].as_str()
    }

    /// The argument types that the function takes: exactly the JSON union, any other argument
    /// type being a planning error. The argument has no name.
    pub fn signature(&self) -> (signature: &Signature)
        ensures
            *signature == self.declared(),
            signature_types(*signature) == seq![json_union_index()],
            signature_stability(*signature) == Stability::Immutable,
            signature_parameter_names(*signature) is None,
    {
        proof {
            use_type_invariant(self);
        }
        &self.signature
    }

    /// The names that the function goes by, which is its name alone.
    pub fn aliases(&self) -> (aliases: &[String])
        ensures
            aliases@.len() == 1,
            aliases@[0]@ == self.alias(),
            aliases@[0]@ == "json_union_to_text"@,
    {
        proof {
            use_type_invariant(self);
        }
        self.aliases.as_slice()
    }

    /// The type that the function returns for these argument types: `Utf8View` for one JSON
    /// union.
    pub fn return_type(&self, arg_types: &[DataType]) -> (data_type: Result<DataType, TextError>)
        ensures
            returned(arg_types@, data_type),
            arg_types@.len() == 1 ==> json_union_is_distinct(),
    {
        if arg_types.len() == 1 && is_json_union(&arg_types[0]) {
            assert(type_indices(arg_types@) =~= seq![json_union_index()]);
            Ok(arrow_type(ArrowKind::Utf8View))
        } else {
            proof {
                if takes(arg_types@) {
                    assert(type_indices(arg_types@).len() == 1);
                    assert(type_indices(arg_types@)[0] == json_union_index());
                }
            }
            Err(TextError::ArgumentTypes(types_debug(arg_types)))
        }
    }

    /// Flattens the first argument.
    pub fn invoke_with_args(&self, args: Vec<ColumnarValue>, number_rows: usize) -> (result: Result<
        ColumnarValue,
        TextError,
    >)
        requires
            first_expands(args@, number_rows),
            first_fits(args@, number_rows),
        ensures
            invoked(args@, number_rows, result),
    {
        self.invoke_with_args_checked(args, number_rows).unwrap()
    }

    /// Flattens the first argument. `None` where no column of strings can hold its text.
    pub fn invoke_with_args_checked(
        &self,
        args: Vec<ColumnarValue>,
        number_rows: usize,
    ) -> (result: Option<Result<ColumnarValue, TextError>>)
        requires
            first_expands(args@, number_rows),
        ensures
            match result {
                Some(result) => first_fits(args@, number_rows) && invoked(
                    args@,
                    number_rows,
                    result,
                ),
                None => !first_fits(args@, number_rows),
            },
    {
        match argument_column(args, number_rows) {
            Ok(column) => match json_union_to_text_array_checked(&column) {
                Some(Ok(text)) => Some(Ok(column_value(text))),
                Some(Err(error)) => Some(Err(error)),
                None => None,
            },
            Err(error) => Some(Err(error)),
        }
    }
}

impl Default for JsonUnionToText {
    /// The function, which takes exactly the JSON union and whose result depends on its argument
    /// alone.
    fn default() -> (udf: Self)
        ensures
            signature_types(udf.declared()) == seq![json_union_index()],
            signature_stability(udf.declared()) == Stability::Immutable,
            signature_parameter_names(udf.declared()) is None,
            udf.alias() == "json_union_to_text"@,
    {
        let data_types: Vec<DataType> = vec![json_union_data_type()];
        let signature = exact_signature(data_types, Stability::Immutable);
        assert(signature_types(signature) =~= seq![json_union_index()]);
        JsonUnionToText { signature, aliases: ["json_union_to_text".to_owned()] }
    }
}

} // verus!
