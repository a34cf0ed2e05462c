//! Flattening of JSON union columns into columns of canonical JSON text.
//!
//! A JSON union is the Arrow type of a column whose rows hold JSON values of varying kinds: nulls,
//! booleans, integers, floats, strings, arrays and objects. [`JsonUnionToText`] is the scalar
//! function that turns such a column into one column of text.
//!
//! - [`escape`] and [`decimal`] write JSON strings and integers;
//! - [`json`] says what value a JSON text stands for;
//! - [`value`] says what text each value of a union has;
//! - [`encoder`] says what the JSON union type is and reads the values of a union array;
//! - [`flatten`] turns a column of values into a column of text;
//! - [`udf`] is the function: its name, its types and its invocation;
//! - [`arrow`] and [`strings`] state what the library takes on trust of Arrow, DataFusion and the
//!   standard library.

pub mod arrow;
pub mod decimal;
pub mod encoder;
pub mod error;
pub mod escape;
pub mod flatten;
pub mod json;
pub mod strings;
pub mod udf;
pub mod value;

pub use encoder::{is_json_union, json_union_data_type, JsonUnionEncoder};
pub use error::TextError;
pub use escape::push_json_string;
pub use flatten::{json_union_to_text_array, json_union_to_text_array_checked};
pub use udf::JsonUnionToText;
pub use value::JsonUnionValue;
