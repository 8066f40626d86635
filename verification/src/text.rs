//! The inner JSON-text layer of the mutation fields.
//!
//! Several mutation fields travel as strings whose text is itself JSON and
//! must be decoded twice. The text layer is delegated to serde_json behind
//! the trusted functions of this module; each names or states exactly what
//! the call returns, and the codec's own logic is verified against that.

use vstd::prelude::*;

use crate::model::{Number, SpecNumber, SpecValue, Value};

verus! {

/// The sequence of strings that the JSON text of an array of strings holds,
/// or `None` where the text is not such an array.
pub uninterp spec fn json_parse_str_array(s: Seq<char>) -> Option<Seq<Seq<char>>>;

/// The JSON text of an array of strings.
pub uninterp spec fn json_write_str_array(v: Seq<Seq<char>>) -> Seq<char>;

/// The sequence of scalar values that the JSON text of an array of scalars
/// holds, or `None` where the text is not such an array.
pub uninterp spec fn json_parse_scalar_array(s: Seq<char>) -> Option<Seq<SpecValue>>;

/// The JSON text of an array of scalar values.
pub uninterp spec fn json_write_scalar_array(v: Seq<SpecValue>) -> Seq<char>;

/// The boolean that a piece of JSON text denotes, or `None`.
pub uninterp spec fn json_parse_bool(s: Seq<char>) -> Option<bool>;

/// The boolean or null that a piece of JSON text denotes, or `None`.
pub uninterp spec fn json_parse_opt_bool(s: Seq<char>) -> Option<Option<bool>>;

/// The exact JSON text of a boolean.
pub open spec fn spec_bool_text(b: bool) -> Seq<char> {
    if b {
        "true"@
    } else {
        "false"@
    }
}

/// The exact JSON text of an optional boolean, null standing for `None`.
pub open spec fn spec_opt_bool_text(b: Option<bool>) -> Seq<char> {
    match b {
        Some(x) => spec_bool_text(x),
        None => "null"@,
    }
}

/// Relies on `serde_json::from_str::<Vec<String>>`: parses JSON text into the
/// array of strings it denotes, failing on any other text.
#[verifier::external_body]
pub(crate) fn parse_str_array(s: &str) -> (r: Option<Vec<String>>)
    ensures
        match r {
            Some(v) => json_parse_str_array(s@) == Some(v.deep_view()),
            None => json_parse_str_array(s@) is None,
        },
{
    serde_json::from_str::<Vec<String>>(s).ok()
}

/// Relies on `serde_json::to_string::<Vec<String>>`: writes the JSON text of
/// an array of strings; serde documents that parsing it back yields the same
/// array.
#[verifier::external_body]
pub(crate) fn write_str_array(v: &Vec<String>) -> (r: String)
    ensures
        r@ == json_write_str_array(v.deep_view()),
        json_parse_str_array(r@) == Some(v.deep_view()),
{
    serde_json::to_string(v).unwrap_or_default()
}

/// Relies on `serde_json::from_str::<Vec<serde_json::Value>>`: parses JSON
/// text into an array whose elements must all be scalars. A number readable
/// as an `i64` becomes `Number::Int`; any other number becomes its canonical
/// text, as `serde_json::Number` prints it.
#[verifier::external_body]
pub(crate) fn parse_scalar_array(s: &str) -> (r: Option<Vec<Value>>)
    ensures
        match r {
            Some(v) => json_parse_scalar_array(s@) == Some(v.deep_view()),
            None => json_parse_scalar_array(s@) is None,
        },
{
    let es: Vec<serde_json::Value> = serde_json::from_str(s).ok()?;
    let mut out: Vec<Value> = Vec::new();
    for e in es {
        out.push(match e {
            serde_json::Value::Bool(b) => Value::Bool(b),
            serde_json::Value::String(t) => Value::Text(t),
            serde_json::Value::Number(n) => match n.as_i64() {
                Some(i) => Value::Number(Number::Int(i)),
                None => Value::Number(Number::Float(n.to_string())),
            },
            _ => return None,
        });
    }
    Some(out)
}

/// Relies on `serde_json::to_string::<Vec<serde_json::Value>>` and
/// `serde_json::from_str::<serde_json::Number>`: writes the JSON text of an
/// array of scalars. Parsing that text back yields the same array whenever
/// every non-integer number is in the canonical text serde's own parser
/// produces; that direction is exercised by tests, not assumed here.
#[verifier::external_body]
pub(crate) fn write_scalar_array(v: &Vec<Value>) -> (r: String)
    ensures
        r@ == json_write_scalar_array(v.deep_view()),
{
    let mut out: Vec<serde_json::Value> = Vec::new();
    for e in v {
        out.push(match e {
            Value::Bool(b) => serde_json::Value::Bool(*b),
            Value::Text(t) => serde_json::Value::String(t.clone()),
            Value::Number(Number::Int(i)) => serde_json::Value::from(*i),
            Value::Number(Number::Float(t)) => match serde_json::from_str(t) {
                Ok(n) => serde_json::Value::Number(n),
                Err(_) => serde_json::Value::Null,
            },
        });
    }
    serde_json::to_string(&out).unwrap_or_default()
}

/// Relies on `serde_json::from_str::<bool>`: parses exactly the JSON text of
/// a boolean, in particular the texts `true` and `false`.
#[verifier::external_body]
pub(crate) fn parse_bool_text(s: &str) -> (r: Option<bool>)
    ensures
        r == json_parse_bool(s@),
        s@ == spec_bool_text(true) ==> r == Some(true),
        s@ == spec_bool_text(false) ==> r == Some(false),
{
    serde_json::from_str::<bool>(s).ok()
}

/// Relies on `serde_json::from_str::<Option<bool>>`: parses exactly the JSON
/// text of a boolean or of null, null standing for `None`.
#[verifier::external_body]
pub(crate) fn parse_opt_bool_text(s: &str) -> (r: Option<Option<bool>>)
    ensures
        r == json_parse_opt_bool(s@),
        s@ == spec_opt_bool_text(Some(true)) ==> r == Some(Some(true)),
        s@ == spec_opt_bool_text(Some(false)) ==> r == Some(Some(false)),
        s@ == spec_opt_bool_text(None) ==> r == Some(None::<bool>),
{
    serde_json::from_str::<Option<bool>>(s).ok()
}

/// Relies on `serde_json::to_string::<bool>`: the JSON text of a boolean is
/// exactly `true` or `false`.
#[verifier::external_body]
pub(crate) fn write_bool_text(b: bool) -> (r: String)
    ensures
        r@ == spec_bool_text(b),
{
    serde_json::to_string(&b).unwrap_or_default()
}

/// Relies on `serde_json::to_string::<Option<bool>>`: the JSON text of an
/// optional boolean is exactly `true`, `false` or `null`.
#[verifier::external_body]
pub(crate) fn write_opt_bool_text(b: &Option<bool>) -> (r: String)
    ensures
        r@ == spec_opt_bool_text(*b),
{
    serde_json::to_string(b).unwrap_or_default()
}

} // verus!
