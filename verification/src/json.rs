//! JSON documents, as far as the configuration reads them.
//!
//! Parsing and the tree of values belong to `serde_json`. Verified code sees a
//! `serde_json::Value` only through the functions at the end of this file, each
//! of which calls one function of `serde_json`; their contracts are trusted and
//! speak of [`json_model`], the mathematical content of a value.

use vstd::prelude::*;

verus! {

#[verifier::external_type_specification]
#[verifier::external_body]
pub struct ExValue(serde_json::Value);

#[verifier::external_type_specification]
#[verifier::external_body]
pub struct ExJsonError(serde_json::Error);

/// The content of a JSON value. Only what the configuration distinguishes is
/// kept apart: integers, strings and objects. `null`, booleans, arrays and
/// numbers that `serde_json` does not hold as a `u64` or an `i64` (fractions,
/// exponents, integers beyond both ranges) are all `Other`.
pub enum JsonModel {
    Integer(int),
    Text(Seq<char>),
    Object(Map<Seq<char>, JsonModel>),
    Other,
}

impl JsonModel {
    /// The member called `name`, if this is an object that has one.
    pub open spec fn member(self, name: Seq<char>) -> Option<JsonModel> {
        match self {
            JsonModel::Object(members) => if members.contains_key(name) {
                Some(members[name])
            } else {
                None
            },
            _ => None,
        }
    }

    /// The characters of this value, if it is a string.
    pub open spec fn text(self) -> Option<Seq<char>> {
        match self {
            JsonModel::Text(characters) => Some(characters),
            _ => None,
        }
    }

    /// This value as an integer within `low ..= high`, if it is one.
    pub open spec fn integer_within(self, low: int, high: int) -> Option<int> {
        match self {
            JsonModel::Integer(n) => if low <= n <= high {
                Some(n)
            } else {
                None
            },
            _ => None,
        }
    }
}

/// The content of a parsed value.
pub uninterp spec fn json_model(value: serde_json::Value) -> JsonModel;

/// What parsing makes of `text`: the content of the document that it spells,
/// or, where it is not one JSON value, the parser's account of why.
pub uninterp spec fn json_document(text: Seq<char>) -> Result<JsonModel, Seq<char>>;

/// The account that a parse error gives of itself in its `Debug` form: the
/// message, the line and the column.
pub uninterp spec fn json_error_text(error: serde_json::Error) -> Seq<char>;

/// What the outcome of parsing stands for: the content of the value, or the
/// error's account of itself.
pub open spec fn parsed_view(parsed: Result<serde_json::Value, serde_json::Error>) -> Result<
    JsonModel,
    Seq<char>,
> {
    match parsed {
        Ok(value) => Ok(json_model(value)),
        Err(error) => Err(json_error_text(error)),
    }
}

/// Calls `serde_json::from_str` at the type `serde_json::Value`.
///
/// Trusted: whether the text parses, to which content, and with which error
/// where it does not, depends on the text alone; [`json_document`] names the
/// outcome.
#[verifier::external_body]
pub(crate) fn parse_document(text: &str) -> (parsed: Result<serde_json::Value, serde_json::Error>)
    ensures
        parsed_view(parsed) == json_document(text@),
{
    serde_json::from_str::<serde_json::Value>(text)
}

/// Writes out a `serde_json::Error` through its `Debug` form.
///
/// Trusted: the text depends on the error alone; it is what
/// [`json_error_text`] names.
#[verifier::external_body]
pub(crate) fn parse_error_text(error: &serde_json::Error) -> (text: String)
    ensures
        text@ == json_error_text(*error),
{
    format!("{:?}", error)
}

/// Calls `serde_json::Value::get` with a string index.
///
/// Trusted: the call looks `name` up among the members of an object and finds
/// nothing in any other kind of value.
#[verifier::external_body]
pub(crate) fn member_of<'a>(value: &'a serde_json::Value, name: &str) -> (found: Option<
    &'a serde_json::Value,
>)
    ensures
        found matches Some(inner) ==> json_model(*value).member(name@) == Some(json_model(*inner)),
        found is None ==> json_model(*value).member(name@) is None,
{
    value.get(name)
}

/// Calls `serde_json::Value::as_str`.
///
/// Trusted: the call hands out the characters of a string and nothing for any
/// other kind of value.
#[verifier::external_body]
pub(crate) fn text_of<'a>(value: &'a serde_json::Value) -> (found: Option<&'a str>)
    ensures
        found matches Some(characters) ==> json_model(*value).text() == Some(characters@),
        found is None ==> json_model(*value).text() is None,
{
    value.as_str()
}

/// Calls `serde_json::Value::as_u64`.
///
/// Trusted: the call hands out an integer that is not negative and nothing for
/// any other value.
#[verifier::external_body]
pub(crate) fn unsigned_of(value: &serde_json::Value) -> (found: Option<u64>)
    ensures
        found matches Some(n) ==> json_model(*value).integer_within(0, u64::MAX as int) == Some(
            n as int,
        ),
        found is None ==> json_model(*value).integer_within(0, u64::MAX as int) is None,
{
    value.as_u64()
}

/// Calls `serde_json::Value::as_i64`.
///
/// Trusted: the call hands out an integer that fits in an `i64` and nothing for
/// any other value.
#[verifier::external_body]
pub(crate) fn signed_of(value: &serde_json::Value) -> (found: Option<i64>)
    ensures
        found matches Some(n) ==> json_model(*value).integer_within(
            i64::MIN as int,
            i64::MAX as int,
        ) == Some(n as int),
        found is None ==> json_model(*value).integer_within(i64::MIN as int, i64::MAX as int)
            is None,
{
    value.as_i64()
}

} // verus!
