//! Trusted boundary to `serde_yaml`.  Every wrapper's outcome depends on
//! its text or entry arguments alone and carries a name for it, so the
//! verified callers can owe success and pin their results; which fields
//! are read or written, and every default, is decided by verified code in
//! `post.rs` and `settings.rs`.

use vstd::prelude::*;

use crate::strutil::{matches_opt_list, matches_opt_str, seq_views};

verus! {

/// Whether serde_yaml parses this text as a YAML document.
pub uninterp spec fn yaml_parses(text: Seq<char>) -> bool;

/// The string serde_yaml reads at this top-level key of the document:
/// unset when the key is absent, null, or holds another kind of value.
pub uninterp spec fn yaml_str_field(text: Seq<char>, key: Seq<char>) -> Option<Seq<char>>;

/// The boolean at this top-level key, with the same conventions.
pub uninterp spec fn yaml_bool_field(text: Seq<char>, key: Seq<char>) -> Option<bool>;

/// The string list at this top-level key: unset when the key is absent,
/// null, not a sequence, or a sequence with a non-string element.
pub uninterp spec fn yaml_list_field(text: Seq<char>, key: Seq<char>) -> Option<Seq<Seq<char>>>;

/// Relies on `serde_yaml::from_str::<Value>` and `Value::{get, as_str}`:
/// reads the string at a top-level key of the document.
#[verifier::external_body]
pub(crate) fn get_str_field(text: &str, key: &str) -> (r: Result<Option<String>, String>)
    ensures
        r matches Ok(v) ==> yaml_parses(text@) && matches_opt_str(v, yaml_str_field(text@, key@)),
        r is Err ==> !yaml_parses(text@),
{
    match serde_yaml::from_str::<serde_yaml::Value>(text) {
        Ok(v) => Ok(v.get(key).and_then(serde_yaml::Value::as_str).map(String::from)),
        Err(e) => Err(e.to_string()),
    }
}

/// Relies on `serde_yaml::from_str::<Value>` and `Value::{get, as_bool}`:
/// reads the boolean at a top-level key of the document.
#[verifier::external_body]
pub(crate) fn get_bool_field(text: &str, key: &str) -> (r: Result<Option<bool>, String>)
    ensures
        r matches Ok(v) ==> yaml_parses(text@) && v == yaml_bool_field(text@, key@),
        r is Err ==> !yaml_parses(text@),
{
    match serde_yaml::from_str::<serde_yaml::Value>(text) {
        Ok(v) => Ok(v.get(key).and_then(serde_yaml::Value::as_bool)),
        Err(e) => Err(e.to_string()),
    }
}

/// Relies on `serde_yaml::from_str::<Value>` and `Value::{get,
/// as_sequence, as_str}`: reads the string list at a top-level key; the
/// closure only converts each element.
#[verifier::external_body]
pub(crate) fn get_list_field(text: &str, key: &str) -> (r: Result<Option<Vec<String>>, String>)
    ensures
        r matches Ok(v) ==> yaml_parses(text@) && matches_opt_list(v, yaml_list_field(text@, key@)),
        r is Err ==> !yaml_parses(text@),
{
    match serde_yaml::from_str::<serde_yaml::Value>(text) {
        Ok(v) => Ok(
            v.get(key).and_then(serde_yaml::Value::as_sequence).and_then(
                |t| t.iter().map(|e| e.as_str().map(String::from)).collect(),
            ),
        ),
        Err(e) => Err(e.to_string()),
    }
}

/// Whether serde_yaml parses this text as a map from strings to strings —
/// the shape a configuration file must have.
pub uninterp spec fn config_parses(text: Seq<char>) -> bool;

/// Relies on `serde_yaml::from_str::<BTreeMap<String, String>>`: checks
/// that the configuration text is a string-to-string map.
#[verifier::external_body]
pub(crate) fn config_check(text: &str) -> (r: Result<(), String>)
    ensures
        r is Ok ==> config_parses(text@),
        r is Err ==> !config_parses(text@),
{
    match serde_yaml::from_str::<std::collections::BTreeMap<String, String>>(text) {
        Ok(_) => Ok(()),
        Err(e) => Err(e.to_string()),
    }
}

/// A scalar mapping entry, at the specification level.
pub enum YamlScalar {
    Str(Seq<char>),
    Bool(bool),
    List(Seq<Seq<char>>),
}

/// A scalar mapping entry, as the renderer takes it.
#[derive(Clone, Debug)]
pub enum YamlValue {
    S(String),
    B(bool),
    L(Vec<String>),
}

impl YamlValue {
    /// The specification-level view of the entry value.
    pub open spec fn view_scalar(&self) -> YamlScalar {
        match self {
            YamlValue::S(s) => YamlScalar::Str(s@),
            YamlValue::B(b) => YamlScalar::Bool(*b),
            YamlValue::L(l) => YamlScalar::List(seq_views(l@)),
        }
    }
}

/// The view of an entry list: key views paired with value views.
pub open spec fn entry_views(entries: Seq<(String, YamlValue)>) -> Seq<(Seq<char>, YamlScalar)> {
    entries.map_values(|e: (String, YamlValue)| (e.0@, e.1.view_scalar()))
}

/// Whether serde_yaml renders a mapping holding these entries.
pub uninterp spec fn yaml_renders(entries: Seq<(Seq<char>, YamlScalar)>) -> bool;

/// The YAML text serde_yaml renders for a mapping holding these entries,
/// keys in the given order, with no leading document marker.
pub uninterp spec fn yaml_render_of(entries: Seq<(Seq<char>, YamlScalar)>) -> Seq<char>;

/// Relies on `serde_yaml::Mapping`'s `FromIterator` (which keeps
/// insertion order) and `serde_yaml::to_string`: renders the entries as
/// the body of a YAML document.  The closures only convert each entry to
/// the outside value forms.
#[verifier::external_body]
pub(crate) fn render_yaml_mapping(entries: &Vec<(String, YamlValue)>) -> (r: Result<String, String>)
    ensures
        r matches Ok(s) ==> yaml_renders(entry_views(entries@)) && s@ == yaml_render_of(
            entry_views(entries@),
        ),
        r is Err ==> !yaml_renders(entry_views(entries@)),
{
    let m: serde_yaml::Mapping = entries
        .iter()
        .map(|(k, v)| (serde_yaml::Value::String(k.clone()), match v {
            YamlValue::S(s) => serde_yaml::Value::String(s.clone()),
            YamlValue::B(b) => serde_yaml::Value::Bool(*b),
            YamlValue::L(l) => serde_yaml::Value::Sequence(
                l.iter().map(|x| serde_yaml::Value::String(x.clone())).collect(),
            ),
        }))
        .collect();
    serde_yaml::to_string(&m).map_err(|e| e.to_string())
}

} // verus!
