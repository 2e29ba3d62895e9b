//! The JSON reading and quoting that payload framing relies on, done by
//! serde_json.
use crate::attributes::opt_view;
use vstd::prelude::*;

verus! {

/// What serde_json reads of member `name` when `text` is parsed as one JSON
/// document: the member's text when it is a string, and its value when it is
/// a number that fits in a `u64`. Both are absent when `text` does not parse,
/// is not an object, or has no such member.
pub uninterp spec fn json_member(text: Seq<char>, name: Seq<char>) -> (Option<Seq<char>>, Option<u64>);

/// The JSON string literal that serde_json writes for `s`, quotes included.
pub uninterp spec fn json_quoted(s: Seq<char>) -> Seq<char>;

/// Relies on serde_json::from_str::<serde_json::Value> to parse `text`, and on
/// Value::get, Value::as_str and Value::as_u64 to read member `name` of it.
#[verifier::external_body]
pub(crate) fn read_member(text: &str, name: &str) -> (r: (Option<String>, Option<u64>))
    ensures
        opt_view(r.0) == json_member(text@, name@).0,
        r.1 == json_member(text@, name@).1,
{
    match serde_json::from_str::<serde_json::Value>(text) {
        Ok(v) => match v.get(name) {
            Some(m) => (m.as_str().map(String::from), m.as_u64()),
            None => (None, None),
        },
        Err(_) => (None, None),
    }
}

/// Relies on serde_json::to_string on a `str`: the quoted and escaped JSON
/// string for `s`. Serializing a `str` does not fail.
#[verifier::external_body]
pub(crate) fn quote(s: &str) -> (r: String)
    ensures
        r@ == json_quoted(s@),
{
    match serde_json::to_string(s) {
        Ok(t) => t,
        Err(_) => String::new(),
    }
}

} // verus!
