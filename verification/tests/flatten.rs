use std::sync::Arc;

use datafusion::arrow::array::{
    Array, ArrayRef, BooleanArray, Float64Array, Int32Array, Int64Array, NullArray, StringArray,
    StringViewArray, UnionArray,
};
use datafusion::arrow::buffer::ScalarBuffer;
use datafusion::arrow::datatypes::{DataType, Field, UnionFields, UnionMode};
use datafusion::common::ScalarValue;
use datafusion::logical_expr::{ColumnarValue, TypeSignature, Volatility};
use json_union_to_text::arrow::ArrowColumn;
use json_union_to_text::flatten::flatten;
use json_union_to_text::udf::{argument_column, column_value};
use json_union_to_text::{
    is_json_union, json_union_data_type, json_union_to_text_array,
    json_union_to_text_array_checked, JsonUnionEncoder, JsonUnionToText, JsonUnionValue,
    TextError,
};

/// One value of a JSON union.
enum Cell {
    JsonNull,
    Bool(bool),
    Int(i64),
    Float(f64),
    Str(String),
    Array(String),
    Object(String),
}

fn union_fields() -> UnionFields {
    match json_union_data_type() {
        DataType::Union(fields, UnionMode::Sparse) => fields,
        other => panic!("not a sparse union: {other:?}"),
    }
}

/// The JSON union array with these rows, where `None` is a row that holds nothing.
fn json_union(rows: Vec<Option<Cell>>) -> UnionArray {
    let n = rows.len();
    let mut type_ids: Vec<i8> = vec![0; n];
    let mut bools: Vec<Option<bool>> = vec![None; n];
    let mut ints: Vec<Option<i64>> = vec![None; n];
    let mut floats: Vec<Option<f64>> = vec![None; n];
    let mut strings: Vec<Option<String>> = vec![None; n];
    let mut arrays: Vec<Option<String>> = vec![None; n];
    let mut objects: Vec<Option<String>> = vec![None; n];
    for (i, row) in rows.into_iter().enumerate() {
        match row {
            None | Some(Cell::JsonNull) => {}
            Some(Cell::Bool(b)) => {
                type_ids[i] = 1;
                bools[i] = Some(b);
            }
            Some(Cell::Int(v)) => {
                type_ids[i] = 2;
                ints[i] = Some(v);
            }
            Some(Cell::Float(v)) => {
                type_ids[i] = 3;
                floats[i] = Some(v);
            }
            Some(Cell::Str(s)) => {
                type_ids[i] = 4;
                strings[i] = Some(s);
            }
            Some(Cell::Array(s)) => {
                type_ids[i] = 5;
                arrays[i] = Some(s);
            }
            Some(Cell::Object(s)) => {
                type_ids[i] = 6;
                objects[i] = Some(s);
            }
        }
    }
    let children: Vec<ArrayRef> = vec![
        Arc::new(NullArray::new(n)),
        Arc::new(BooleanArray::from(bools)),
        Arc::new(Int64Array::from(ints)),
        Arc::new(Float64Array::from(floats)),
        Arc::new(StringArray::from(strings)),
        Arc::new(StringArray::from(arrays)),
        Arc::new(StringArray::from(objects)),
    ];
    UnionArray::try_new(union_fields(), ScalarBuffer::from(type_ids), None, children).unwrap()
}

fn column(array: ArrayRef) -> ArrowColumn {
    let rows = array.len();
    argument_column(vec![ColumnarValue::Array(array)], rows).unwrap()
}

fn texts_of(value: ColumnarValue) -> Vec<Option<String>> {
    let array = match value {
        ColumnarValue::Array(array) => array,
        ColumnarValue::Scalar(scalar) => panic!("a scalar: {scalar:?}"),
    };
    assert_eq!(array.data_type(), &DataType::Utf8View);
    let strings = array.as_any().downcast_ref::<StringViewArray>().unwrap();
    strings.iter().map(|text| text.map(|text| text.to_string())).collect()
}

fn flat(array: ArrayRef) -> Vec<Option<String>> {
    texts_of(column_value(json_union_to_text_array(&column(array)).unwrap()))
}

fn some(text: &str) -> Option<String> {
    Some(text.to_string())
}

#[test]
fn flattens_each_arm_to_json_text() {
    let union = json_union(vec![
        Some(Cell::JsonNull),
        Some(Cell::Bool(true)),
        Some(Cell::Int(42)),
        Some(Cell::Float(1.5)),
        Some(Cell::Str("foo\"bar\n".to_string())),
        Some(Cell::Array("[1,2]".to_string())),
        Some(Cell::Object(r#"{"a":1}"#.to_string())),
        None,
    ]);
    let array: ArrayRef = Arc::new(union);

    let got = flat(array);
    assert_eq!(
        got,
        vec![
            None,                            // JsonNull
            some("true"),                    // Bool
            some("42"),                      // Int
            some("1.5"),                     // Float
            some("\"foo\\\"bar\\n\""),       // Str: quoted and escaped
            some("[1,2]"),                   // Array
            some(r#"{"a":1}"#),              // Object
            None,                            // None
        ]
    );
}

#[test]
fn booleans_and_integers_have_their_json_text() {
    let got = flat(Arc::new(json_union(vec![
        Some(Cell::Bool(false)),
        Some(Cell::Int(0)),
        Some(Cell::Int(-7)),
        Some(Cell::Int(1000000)),
        Some(Cell::Int(i64::MAX)),
        Some(Cell::Int(i64::MIN)),
    ])));
    assert_eq!(
        got,
        vec![
            some("false"),
            some("0"),
            some("-7"),
            some("1000000"),
            some("9223372036854775807"),
            some("-9223372036854775808"),
        ]
    );
}

#[test]
fn floats_have_their_displayed_text() {
    let got = flat(Arc::new(json_union(vec![
        Some(Cell::Float(42.0)),
        Some(Cell::Float(-0.0)),
        Some(Cell::Float(1e21)),
        Some(Cell::Float(0.1)),
        Some(Cell::Float(1e-7)),
        Some(Cell::Float(f64::NAN)),
        Some(Cell::Float(f64::NEG_INFINITY)),
    ])));
    assert_eq!(
        got,
        vec![
            some("42"),
            some("-0"),
            some("1000000000000000000000"),
            some("0.1"),
            some("0.0000001"),
            some("NaN"),
            some("-inf"),
        ]
    );
}

#[test]
fn an_integer_and_a_float_can_have_one_text() {
    let got = flat(Arc::new(json_union(vec![Some(Cell::Int(42)), Some(Cell::Float(42.0))])));
    assert_eq!(got[0], got[1]);
}

#[test]
fn a_string_that_looks_like_another_value_is_quoted() {
    let got = flat(Arc::new(json_union(vec![
        Some(Cell::Str("true".to_string())),
        Some(Cell::Str("42".to_string())),
        Some(Cell::Str("null".to_string())),
        Some(Cell::Str(String::new())),
    ])));
    assert_eq!(got, vec![some("\"true\""), some("\"42\""), some("\"null\""), some("\"\"")]);
}

#[test]
fn arrays_and_objects_are_not_read() {
    let got = flat(Arc::new(json_union(vec![
        Some(Cell::Array("[ 1 ,\n 2 ]".to_string())),
        Some(Cell::Object("not json".to_string())),
        Some(Cell::Array(String::new())),
    ])));
    assert_eq!(got, vec![some("[ 1 ,\n 2 ]"), some("not json"), some("")]);
}

#[test]
fn long_texts_are_kept() {
    let long = "x".repeat(100_000);
    let got = flat(Arc::new(json_union(vec![
        Some(Cell::Str(long.clone())),
        Some(Cell::Array(long.clone())),
        Some(Cell::Int(1)),
    ])));
    assert_eq!(got, vec![Some(format!("\"{long}\"")), Some(long), some("1")]);
}

#[test]
fn an_empty_union_flattens_to_an_empty_column() {
    assert_eq!(flat(Arc::new(json_union(vec![]))), Vec::<Option<String>>::new());
}

#[test]
fn a_slice_flattens_to_its_own_rows() {
    let union = json_union(vec![
        Some(Cell::Int(1)),
        Some(Cell::Str("two".to_string())),
        None,
        Some(Cell::Bool(true)),
    ]);
    let got = flat(Arc::new(union.slice(1, 2)));
    assert_eq!(got, vec![some("\"two\""), None]);
}

#[test]
fn a_null_under_a_chosen_arm_is_its_slot() {
    let n = 2;
    let children: Vec<ArrayRef> = vec![
        Arc::new(NullArray::new(n)),
        Arc::new(BooleanArray::from(vec![None, None])),
        Arc::new(Int64Array::from(vec![None, None])),
        Arc::new(Float64Array::from(vec![None, None])),
        Arc::new(StringArray::from(vec![None::<&str>, None])),
        Arc::new(StringArray::from(vec![None::<&str>, None])),
        Arc::new(StringArray::from(vec![None::<&str>, None])),
    ];
    let type_ids = ScalarBuffer::from(vec![4i8, 5]);
    let union = UnionArray::try_new(union_fields(), type_ids, None, children).unwrap();
    assert_eq!(flat(Arc::new(union)), vec![some("\"\""), some("")]);
}

#[test]
fn the_checked_form_gives_the_same_rows() {
    let array: ArrayRef = Arc::new(json_union(vec![Some(Cell::Bool(true)), None]));
    let checked = json_union_to_text_array_checked(&column(array.clone())).unwrap().unwrap();
    assert_eq!(texts_of(column_value(checked)), flat(array));
}

#[test]
fn rows_of_two_unions_flatten_one_after_the_other() {
    let first = flat(Arc::new(json_union(vec![Some(Cell::Int(1)), None])));
    let second = flat(Arc::new(json_union(vec![Some(Cell::Str("a".to_string()))])));
    let both = flat(Arc::new(json_union(vec![
        Some(Cell::Int(1)),
        None,
        Some(Cell::Str("a".to_string())),
    ])));
    assert_eq!(both, [first, second].concat());
}

#[test]
fn plain_scalars_have_different_texts() {
    let got = flat(Arc::new(json_union(vec![
        Some(Cell::JsonNull),
        Some(Cell::Bool(true)),
        Some(Cell::Bool(false)),
        Some(Cell::Int(1)),
        Some(Cell::Int(-1)),
        Some(Cell::Str("true".to_string())),
        Some(Cell::Str("1".to_string())),
        Some(Cell::Str("\"1\"".to_string())),
    ])));
    for i in 0..got.len() {
        for j in 0..i {
            assert_ne!(got[i], got[j]);
        }
    }
}

#[test]
fn flattening_twice_gives_the_same_rows() {
    let array: ArrayRef = Arc::new(json_union(vec![Some(Cell::Float(0.25)), Some(Cell::Int(8))]));
    assert_eq!(flat(array.clone()), flat(array));
}

#[test]
fn an_array_that_is_no_union_is_refused() {
    let array: ArrayRef = Arc::new(StringArray::from(vec!["a"]));
    let error = json_union_to_text_array(&column(array)).err().unwrap();
    assert!(matches!(error, TextError::NotUnionArray));
    assert_eq!(
        error.message(),
        some("json_union_to_text expects a UnionArray argument")
    );
}

#[test]
fn another_union_is_refused() {
    let fields = UnionFields::try_new(
        vec![0i8],
        vec![Field::new("int", DataType::Int32, false)],
    )
    .unwrap();
    let children: Vec<ArrayRef> = vec![Arc::new(Int32Array::from(vec![1]))];
    let union =
        UnionArray::try_new(fields, ScalarBuffer::from(vec![0i8]), None, children).unwrap();
    let error = json_union_to_text_array(&column(Arc::new(union))).err().unwrap();
    assert!(matches!(error, TextError::NotJsonUnion));
    assert_eq!(
        error.message(),
        some("json_union_to_text argument is not the JSON union type")
    );
}

#[test]
fn a_dense_union_of_the_same_members_is_refused() {
    let children: Vec<ArrayRef> = vec![
        Arc::new(NullArray::new(0)),
        Arc::new(BooleanArray::from(vec![true])),
        Arc::new(Int64Array::from(Vec::<i64>::new())),
        Arc::new(Float64Array::from(Vec::<f64>::new())),
        Arc::new(StringArray::from(Vec::<&str>::new())),
        Arc::new(StringArray::from(Vec::<&str>::new())),
        Arc::new(StringArray::from(Vec::<&str>::new())),
    ];
    let union = UnionArray::try_new(
        union_fields(),
        ScalarBuffer::from(vec![1i8]),
        Some(ScalarBuffer::from(vec![0i32])),
        children,
    )
    .unwrap();
    let error = json_union_to_text_array(&column(Arc::new(union))).err().unwrap();
    assert!(matches!(error, TextError::NotJsonUnion));
}

#[test]
fn a_union_whose_columns_are_of_other_types_is_refused() {
    let children: Vec<ArrayRef> = vec![
        Arc::new(NullArray::new(1)),
        Arc::new(BooleanArray::from(vec![true])),
        Arc::new(Int32Array::from(vec![1])),
        Arc::new(Float64Array::from(vec![1.0])),
        Arc::new(StringArray::from(vec![""])),
        Arc::new(StringArray::from(vec![""])),
        Arc::new(StringArray::from(vec![""])),
    ];
    let union = UnionArray::try_new(
        union_fields(),
        ScalarBuffer::from(vec![1i8]),
        None,
        children,
    )
    .unwrap();
    assert!(JsonUnionEncoder::from_union(&union).is_none());
}

#[test]
fn the_encoder_reads_each_row() {
    let union = json_union(vec![
        Some(Cell::Str("s".to_string())),
        Some(Cell::Float(2.5)),
        Some(Cell::Object("{}".to_string())),
        None,
    ]);
    let encoder = JsonUnionEncoder::from_union(&union).unwrap();
    assert_eq!(encoder.len(), 4);
    assert!(matches!(encoder.get_value(0), JsonUnionValue::Str("s")));
    assert!(matches!(encoder.get_value(1), JsonUnionValue::Float("2.5")));
    assert!(matches!(encoder.get_value(2), JsonUnionValue::Object("{}")));
    assert!(matches!(encoder.get_value(3), JsonUnionValue::JsonNull));
}

fn empty_strings(n: usize) -> Vec<String> {
    vec![String::new(); n]
}

#[test]
fn columns_make_a_union_when_they_match() {
    let encoder = JsonUnionEncoder::from_columns(
        vec![2, 1],
        vec![false, true],
        vec![5, 6],
        empty_strings(2),
        empty_strings(2),
        empty_strings(2),
        empty_strings(2),
    )
    .unwrap();
    assert!(matches!(encoder.get_value(0), JsonUnionValue::Int(5)));
    assert!(matches!(encoder.get_value(1), JsonUnionValue::Bool(true)));
    let column = flatten(&encoder).unwrap();
    assert_eq!(texts_of(column_value(column)), vec![some("5"), some("true")]);
}

#[test]
fn columns_of_different_lengths_make_no_union() {
    let encoder = JsonUnionEncoder::from_columns(
        vec![2, 1],
        vec![false, true],
        vec![5],
        empty_strings(2),
        empty_strings(2),
        empty_strings(2),
        empty_strings(2),
    );
    assert!(encoder.is_none());
}

#[test]
fn unknown_type_ids_make_no_union() {
    for type_id in [-1i8, 7] {
        let encoder = JsonUnionEncoder::from_columns(
            vec![type_id],
            vec![false],
            vec![0],
            empty_strings(1),
            empty_strings(1),
            empty_strings(1),
            empty_strings(1),
        );
        assert!(encoder.is_none());
    }
}

#[test]
fn the_json_union_type_has_seven_members() {
    let fields = union_fields();
    let members: Vec<(i8, String, DataType, bool, usize)> = fields
        .iter()
        .map(|(id, field)| {
            (
                id,
                field.name().clone(),
                field.data_type().clone(),
                field.is_nullable(),
                field.metadata().len(),
            )
        })
        .collect();
    assert_eq!(
        members,
        vec![
            (0, "null".to_string(), DataType::Null, true, 0),
            (1, "bool".to_string(), DataType::Boolean, false, 0),
            (2, "int".to_string(), DataType::Int64, false, 0),
            (3, "float".to_string(), DataType::Float64, false, 0),
            (4, "str".to_string(), DataType::Utf8, false, 0),
            (5, "array".to_string(), DataType::Utf8, false, 1),
            (6, "object".to_string(), DataType::Utf8, false, 1),
        ]
    );
    for (id, field) in fields.iter() {
        if id >= 5 {
            assert_eq!(field.metadata().get("is_json").map(|v| v.as_str()), Some("true"));
        }
    }
}

#[test]
fn only_the_json_union_type_is_the_json_union() {
    assert!(is_json_union(&json_union_data_type()));
    assert!(!is_json_union(&DataType::Utf8));
    assert!(!is_json_union(&DataType::Union(union_fields(), UnionMode::Dense)));
    let renamed: Vec<(i8, Field)> = union_fields()
        .iter()
        .map(|(id, field)| (id, field.as_ref().clone().with_name("x")))
        .collect();
    let (ids, fields): (Vec<i8>, Vec<Field>) = renamed.into_iter().unzip();
    let other = DataType::Union(UnionFields::try_new(ids, fields).unwrap(), UnionMode::Sparse);
    assert!(!is_json_union(&other));
}

#[test]
fn the_function_goes_by_its_name() {
    let udf = JsonUnionToText::default();
    assert_eq!(udf.name(), "json_union_to_text");
    assert_eq!(udf.aliases(), ["json_union_to_text".to_string()]);
    assert_eq!(udf, JsonUnionToText::default());
}

#[test]
fn the_signature_is_exactly_the_json_union() {
    let udf = JsonUnionToText::default();
    let signature = udf.signature();
    assert_eq!(signature.volatility, Volatility::Immutable);
    assert_eq!(signature.type_signature, TypeSignature::Exact(vec![json_union_data_type()]));
    assert_eq!(signature.parameter_names, None);
}

#[test]
fn one_json_union_returns_text() {
    let udf = JsonUnionToText::default();
    assert_eq!(udf.return_type(&[json_union_data_type()]).unwrap(), DataType::Utf8View);
}

#[test]
fn the_declared_types_are_taken() {
    let udf = JsonUnionToText::default();
    match &udf.signature().type_signature {
        TypeSignature::Exact(types) => assert!(udf.return_type(types).is_ok()),
        other => panic!("not exact: {other:?}"),
    }
}

#[test]
fn other_argument_types_are_a_planning_error() {
    let udf = JsonUnionToText::default();
    let error = udf.return_type(&[DataType::Utf8]).unwrap_err();
    assert!(matches!(error, TextError::ArgumentTypes(_)));
    assert!(error.is_planning());
    assert_eq!(
        error.message(),
        some("json_union_to_text expects a single JSON-union argument, got [Utf8]")
    );
    assert_eq!(
        udf.return_type(&[]).unwrap_err().message(),
        some("json_union_to_text expects a single JSON-union argument, got []")
    );
    let twice = [json_union_data_type(), json_union_data_type()];
    assert!(matches!(udf.return_type(&twice), Err(TextError::ArgumentTypes(_))));
}

#[test]
fn invoking_flattens_the_first_argument() {
    let udf = JsonUnionToText::default();
    let array: ArrayRef = Arc::new(json_union(vec![Some(Cell::Int(3)), None]));
    let other: ArrayRef = Arc::new(Int64Array::from(vec![1, 2]));
    let args = vec![ColumnarValue::Array(array), ColumnarValue::Array(other)];
    let value = udf.invoke_with_args(args.clone(), 2).unwrap();
    assert_eq!(texts_of(value), vec![some("3"), None]);
    let value = udf.invoke_with_args_checked(args, 2).unwrap().unwrap();
    assert_eq!(texts_of(value), vec![some("3"), None]);
}

#[test]
fn a_scalar_is_flattened_for_every_row() {
    let udf = JsonUnionToText::default();
    let scalar = ScalarValue::Union(
        Some((4, Box::new(ScalarValue::Utf8(Some("a\tb".to_string()))))),
        union_fields(),
        UnionMode::Sparse,
    );
    let value = udf.invoke_with_args(vec![ColumnarValue::Scalar(scalar)], 3).unwrap();
    assert_eq!(texts_of(value), vec![some("\"a\\tb\""); 3]);
}

#[test]
fn no_argument_is_an_error() {
    let udf = JsonUnionToText::default();
    let error = udf.invoke_with_args(vec![], 1).err().unwrap();
    assert!(matches!(error, TextError::NoArgument));
    assert!(!error.is_planning());
    assert_eq!(error.message(), some("json_union_to_text expects one argument"));
}

#[test]
fn an_argument_that_cannot_be_a_column_is_an_error() {
    let udf = JsonUnionToText::default();
    let scalar = ScalarValue::Decimal128(Some(1), 0, 0);
    let expected = ColumnarValue::Scalar(scalar.clone()).into_array(1).unwrap_err();
    let error = udf.invoke_with_args(vec![ColumnarValue::Scalar(scalar)], 1).err().unwrap();
    assert!(!error.is_planning());
    assert_eq!(error.message(), None);
    match error {
        TextError::Conversion(error) => assert_eq!(error.to_string(), expected.to_string()),
        other => panic!("another error: {other:?}"),
    }
}

#[test]
fn an_argument_of_another_type_is_an_error() {
    let udf = JsonUnionToText::default();
    let scalar = ScalarValue::Int64(Some(1));
    let error = udf.invoke_with_args(vec![ColumnarValue::Scalar(scalar)], 1).err().unwrap();
    assert!(matches!(error, TextError::NotUnionArray));
}

#[test]
fn planning_and_execution_agree_on_one_argument() {
    let udf = JsonUnionToText::default();
    let taken: ArrayRef = Arc::new(json_union(vec![Some(Cell::Bool(true))]));
    let planned = udf.return_type(&[taken.data_type().clone()]).unwrap();
    match udf.invoke_with_args(vec![ColumnarValue::Array(taken)], 1) {
        Ok(value) => assert_eq!(value.data_type(), planned),
        Err(error) => panic!("refused: {error:?}"),
    }
    let others: Vec<ColumnarValue> = vec![
        ColumnarValue::Array(Arc::new(Int64Array::from(vec![1]))),
        ColumnarValue::Scalar(ScalarValue::Utf8(Some("1".to_string()))),
        ColumnarValue::Scalar(ScalarValue::Union(None, union_fields(), UnionMode::Dense)),
    ];
    for other in others {
        assert!(udf.return_type(&[other.data_type()]).is_err());
        assert!(udf.invoke_with_args(vec![other], 1).is_err());
    }
}

#[test]
fn a_taken_scalar_that_holds_another_type_is_refused() {
    let udf = JsonUnionToText::default();
    let scalar = ScalarValue::Union(
        Some((4, Box::new(ScalarValue::Int64(Some(1))))),
        union_fields(),
        UnionMode::Sparse,
    );
    assert!(udf.return_type(&[scalar.data_type()]).is_ok());
    let error = udf.invoke_with_args(vec![ColumnarValue::Scalar(scalar)], 2).err().unwrap();
    assert!(matches!(error, TextError::NotJsonUnion));
}

#[test]
fn scalar_texts_read_back() {
    let array = json_union(vec![
        Some(Cell::Bool(false)),
        Some(Cell::Int(i64::MIN)),
        Some(Cell::Float(-2.5e-3)),
        Some(Cell::Float(1e21)),
        Some(Cell::Str("a\"\u{1}\u{1f600}".to_string())),
    ]);
    let texts = flat(Arc::new(array));
    assert_eq!(texts[0].as_deref().map(|t| t.parse::<bool>()), Some(Ok(false)));
    assert_eq!(texts[1].as_deref().map(|t| t.parse::<i64>()), Some(Ok(i64::MIN)));
    assert_eq!(texts[2].as_deref().map(|t| t.parse::<f64>()), Some(Ok(-2.5e-3)));
    assert_eq!(texts[2], some("-0.0025"));
    assert_eq!(texts[3].as_deref().map(|t| t.parse::<f64>()), Some(Ok(1e21)));
    assert_eq!(texts[3], some("1000000000000000000000"));
    assert_eq!(texts[4], some("\"a\\\"\\u0001\u{1f600}\""));
}

#[test]
fn a_result_is_not_taken_again() {
    let udf = JsonUnionToText::default();
    let array: ArrayRef = Arc::new(json_union(vec![Some(Cell::Int(1)), None]));
    let text = udf.invoke_with_args(vec![ColumnarValue::Array(array)], 2).unwrap();
    assert!(udf.return_type(&[text.data_type()]).is_err());
    let error = udf.invoke_with_args(vec![text], 2).err().unwrap();
    assert!(matches!(error, TextError::NotUnionArray));
}

#[test]
fn an_array_keeps_its_rows_and_a_scalar_fills_them() {
    let udf = JsonUnionToText::default();
    let array: ArrayRef = Arc::new(json_union(vec![Some(Cell::Bool(true))]));
    let value = udf.invoke_with_args(vec![ColumnarValue::Array(array)], 5).unwrap();
    assert_eq!(texts_of(value), vec![some("true")]);
    for rows in [0, 1, 4] {
        let scalar = ScalarValue::Union(None, union_fields(), UnionMode::Sparse);
        let value = udf.invoke_with_args(vec![ColumnarValue::Scalar(scalar)], rows).unwrap();
        assert_eq!(texts_of(value), vec![None; rows]);
    }
}
