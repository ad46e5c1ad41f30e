//! Trusted boundary of the crate: named projections of a JSON response body,
//! and the thin wrappers that compute them with serde_json.  Verus believes
//! the contracts stated here without reading the bodies; everything else in
//! the crate is proved against them.
//!
//! Each name below stands for a pure function of the response text alone:
//! what a projection of one field of the parsed document returns.  The only
//! facts Verus learns about a name are the `ensures` of the wrapper that
//! applies it.

use vstd::prelude::*;

verus! {

/// The value of the integer field `key` of the top-level JSON object of
/// `body`, when `body` parses, holds such a field, and the number fits an
/// i64; None otherwise.
pub uninterp spec fn json_int_field(body: Seq<char>, key: Seq<char>) -> Option<i64>;

/// The value of the string field `key` of the top-level JSON object of
/// `body`, when `body` parses and holds such a field with a string value;
/// None otherwise (absent, null, or of another type).
pub uninterp spec fn json_str_field(body: Seq<char>, key: Seq<char>) -> Option<Seq<char>>;

/// Whether the top-level JSON object of `body` holds a `solution` field that
/// is not null.
pub uninterp spec fn json_solution_present(body: Seq<char>) -> bool;

/// The value of the string field `key` of the `solution` object of `body`,
/// when `body` parses and holds one; None otherwise.
pub uninterp spec fn json_solution_str_field(body: Seq<char>, key: Seq<char>) -> Option<Seq<char>>;

/// Relies on serde_json::from_str::<Value>, Value::get and Value::as_i64:
/// parses the document and projects one integer field of the top-level
/// object.  The result depends on the text alone.
#[verifier::external_body]
pub(crate) fn read_int_field(body: &str, key: &str) -> (r: Option<i64>)
    ensures
        r == json_int_field(body@, key@),
{
    serde_json::from_str::<serde_json::Value>(body).ok()?.get(key)?.as_i64()
}

/// Relies on serde_json::from_str::<Value>, Value::get and Value::as_str:
/// parses the document and projects one string field of the top-level
/// object.  The result depends on the text alone.
#[verifier::external_body]
pub(crate) fn read_str_field(body: &str, key: &str) -> (r: Option<String>)
    ensures
        r is Some <==> json_str_field(body@, key@) is Some,
        r matches Some(s) ==> json_str_field(body@, key@) == Some(s@),
{
    Some(serde_json::from_str::<serde_json::Value>(body).ok()?.get(key)?.as_str()?.to_owned())
}

/// Relies on serde_json::from_str::<Value>, Value::get and Value::is_null:
/// reports whether the top-level object holds a non-null `solution` field.
/// The result depends on the text alone.
#[verifier::external_body]
pub(crate) fn read_solution_present(body: &str) -> (r: bool)
    ensures
        r == json_solution_present(body@),
{
    match serde_json::from_str::<serde_json::Value>(body) {
        Ok(v) => match v.get("solution") {
            Some(s) => !s.is_null(),
            None => false,
        },
        Err(_) => false,
    }
}

/// Relies on serde_json::from_str::<Value>, Value::get and Value::as_str:
/// parses the document and projects one string field of the `solution`
/// object.  The result depends on the text alone.
#[verifier::external_body]
pub(crate) fn read_solution_str_field(body: &str, key: &str) -> (r: Option<String>)
    ensures
        r is Some <==> json_solution_str_field(body@, key@) is Some,
        r matches Some(s) ==> json_solution_str_field(body@, key@) == Some(s@),
{
    let v: serde_json::Value = serde_json::from_str(body).ok()?;
    Some(v.get("solution")?.get(key)?.as_str()?.to_owned())
}

/// Relies on String::push: appends exactly one character to the string.
#[verifier::external_body]
pub(crate) fn push_char(out: &mut String, c: char)
    ensures
        final(out)@ == old(out)@ + seq![c],
{
    out.push(c);
}

} // verus!
