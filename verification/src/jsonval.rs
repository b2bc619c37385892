//! Trusted boundary to `serde_json`, used to read the metadata blob
//! embedded in a tag page.  The lookup's outcome depends on the text and
//! the keys alone and carries a name for it.

use vstd::prelude::*;

use crate::strutil::matches_opt_str;

verus! {

/// The string serde_json reads at the nested path `k1.k2.k3.field` of
/// this text: unset when the text is not JSON, any step of the path is
/// absent, or the value there is not a string.
pub uninterp spec fn json_str_at(
    text: Seq<char>,
    k1: Seq<char>,
    k2: Seq<char>,
    k3: Seq<char>,
    field: Seq<char>,
) -> Option<Seq<char>>;

/// Relies on `serde_json::from_str::<Value>` and `Value::{get, as_str}`:
/// reads the string at a nested object path; the closures only call the
/// outside accessor with the given keys.
#[verifier::external_body]
pub(crate) fn get_json_str_at(text: &str, k1: &str, k2: &str, k3: &str, field: &str) -> (r: Option<
    String,
>)
    ensures
        matches_opt_str(r, json_str_at(text@, k1@, k2@, k3@, field@)),
{
    match serde_json::from_str::<serde_json::Value>(text) {
        Ok(v) => v
            .get(k1)
            .and_then(|p| p.get(k2))
            .and_then(|p| p.get(k3))
            .and_then(|p| p.get(field))
            .and_then(serde_json::Value::as_str)
            .map(String::from),
        Err(_) => None,
    }
}

} // verus!
