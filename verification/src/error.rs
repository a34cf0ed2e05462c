//! What can go wrong.

use datafusion::common::DataFusionError;
use vstd::prelude::*;

verus! {

/// Why a call of `json_union_to_text` failed.
#[derive(Debug)]
pub enum TextError {
    /// Planning: the argument types are not one JSON union. Holds the types as they are shown to
    /// a programmer.
    ArgumentTypes(String),
    /// Execution: there is no argument.
    NoArgument,
    /// Execution: the argument is not a union array.
    NotUnionArray,
    /// Execution: the argument is a union array of another type.
    NotJsonUnion,
    /// Execution: the argument could not be made into a column.
    Conversion(DataFusionError),
}

impl TextError {
    /// Whether the error is one of planning: the argument types alone show it. Every other error
    /// comes of a call.
    pub fn is_planning(&self) -> (planning: bool)
        ensures
            planning == (*self is ArgumentTypes),
    {
        match self {
            TextError::ArgumentTypes(_) => true,
            TextError::NoArgument
            | TextError::NotUnionArray
            | TextError::NotJsonUnion
            | TextError::Conversion(_) => false,
        }
    }

    /// What the error says. `None` for a failed conversion, whose own error says it.
    pub fn message(&self) -> (message: Option<String>)
        ensures
            (match message {
                Some(message) => Some(message@),
                None => None,
            }) == (match *self {
                TextError::ArgumentTypes(got) => Some(
                    "json_union_to_text expects a single JSON-union argument, got "@ + got@,
                ),
                TextError::NoArgument => Some("json_union_to_text expects one argument"@),
                TextError::NotUnionArray => Some(
                    "json_union_to_text expects a UnionArray argument"@,
                ),
                TextError::NotJsonUnion => Some(
                    "json_union_to_text argument is not the JSON union type"@,
                ),
                TextError::Conversion(_) => None,
            }),
    {
        match self {
            TextError::ArgumentTypes(got) => {
                let mut message =
                    "json_union_to_text expects a single JSON-union argument, got ".to_owned();
                message.push_str(got.as_str());
                Some(message)
            },
            TextError::NoArgument => Some("json_union_to_text expects one argument".to_owned()),
            TextError::NotUnionArray => Some(
                "json_union_to_text expects a UnionArray argument".to_owned(),
            ),
            TextError::NotJsonUnion => Some(
                "json_union_to_text argument is not the JSON union type".to_owned(),
            ),
            TextError::Conversion(_) => None,
        }
    }
}

} // verus!
