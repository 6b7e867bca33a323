use vstd::prelude::*;
use serde_json::Value as SerdeValue;
use crate::json::{JsonDoc, JsonShape, ShapeModel};
use crate::errors::{ResolveError, ErrorModel};

verus! {

/// The outcome of parsing the JSON input text: invalid JSON (with the
/// parser's message), a document whose top level is not an object, or the
/// object reduced to its keys and the shapes of their values.
#[derive(Debug, Clone, PartialEq, Eq)]
pub enum ParseOutcome {
    Invalid(String),
    NotObject,
    Object(JsonDoc),
}

/// Mathematical model of a [`ParseOutcome`].
pub ghost enum ParseOutcomeModel {
    Invalid(Seq<char>),
    NotObject,
    Object(Seq<(Seq<char>, ShapeModel)>),
}

impl View for ParseOutcome {
    type V = ParseOutcomeModel;

    open spec fn view(&self) -> ParseOutcomeModel {
        match self {
            ParseOutcome::Invalid(m) => ParseOutcomeModel::Invalid(m@),
            ParseOutcome::NotObject => ParseOutcomeModel::NotObject,
            ParseOutcome::Object(d) => ParseOutcomeModel::Object(d@),
        }
    }
}

/// What parsing yields on the given text. For the JSON dialect this build
/// links, the outcome is a function of the text alone.
pub uninterp spec fn parsed_doc(text: Seq<char>) -> ParseOutcomeModel;

/// Relies on serde_json::from_str, serde_json::Value's variants and
/// serde_json::Number::as_i64: parses the input text and reports the
/// document's top-level shape, keeping string, boolean and signed 64-bit
/// integer content and only the category of everything else. The outcome is
/// a function of the text alone, named `parsed_doc`; an object's keys come
/// out in the order serde_json's map iterates them.
#[verifier::external_body]
fn parse_document(text: &str) -> (r: ParseOutcome)
    ensures
        r@ == parsed_doc(text@),
{
    let shape = |v: SerdeValue| match v {
        SerdeValue::String(s) => JsonShape::Str(s),
        SerdeValue::Bool(b) => JsonShape::Bool(b),
        SerdeValue::Number(n) => n.as_i64().map_or(JsonShape::FracNumber, JsonShape::Int),
        SerdeValue::Null => JsonShape::Null,
        SerdeValue::Array(_) => JsonShape::Arr,
        SerdeValue::Object(_) => JsonShape::Obj,
    };
    match serde_json::from_str::<SerdeValue>(text) {
        Err(e) => ParseOutcome::Invalid(e.to_string()),
        Ok(SerdeValue::Object(m)) => ParseOutcome::Object(JsonDoc {
            entries: m.into_iter().map(|(k, v)| (k, shape(v))).collect(),
        }),
        Ok(_) => ParseOutcome::NotObject,
    }
}

/// Parses the JSON input text into the document the adapter walks. The text
/// must be a single top-level object; invalid JSON and any other top-level
/// shape are the two fatal input-shape errors, and either aborts the run
/// before any prompt or hook.
pub fn parse_input(text: &str) -> (r: Result<JsonDoc, ResolveError>)
    ensures
        match parsed_doc(text@) {
            ParseOutcomeModel::Invalid(m) => r matches Err(e) && e@ == ErrorModel::InvalidJson(m),
            ParseOutcomeModel::NotObject => r matches Err(e) && e@ == ErrorModel::NotAnObject,
            ParseOutcomeModel::Object(dv) => r matches Ok(d) && d@ == dv,
        },
{
    match parse_document(text) {
        ParseOutcome::Invalid(m) => Err(ResolveError::InvalidJson(m)),
        ParseOutcome::NotObject => Err(ResolveError::NotAnObject),
        ParseOutcome::Object(d) => Ok(d),
    }
}

} // verus!
