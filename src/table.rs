//! The group table: group keys to site group identifiers, read from a JSON object.
use vstd::prelude::*;
use crate::text::{upper_of, uppercase};

verus! {

#[verifier::external_type_specification]
#[verifier::external_body]
pub struct ExJsonValue(serde_json::Value);

#[verifier::external_type_specification]
#[verifier::external_body]
#[verifier::reject_recursive_types(K)]
#[verifier::reject_recursive_types(V)]
pub struct ExJsonMap<K, V>(serde_json::Map<K, V>);

#[verifier::external_type_specification]
#[verifier::external_body]
pub struct ExJsonError(serde_json::Error);

/// The entries of a JSON object: each key, with the JSON text of its value.
pub uninterp spec fn json_entries(m: serde_json::Map<String, serde_json::Value>) -> Map<
    Seq<char>,
    Seq<char>,
>;

/// Whether `serde_json` reads the text as one JSON object.
pub uninterp spec fn parses_as_json_object(s: Seq<char>) -> bool;

/// Relies on `serde_json::from_str` into a `serde_json::Map`, which succeeds
/// exactly when the whole text is one JSON object.
#[verifier::external_body]
fn parse_json_object(text: &str) -> (r: Result<
    serde_json::Map<String, serde_json::Value>,
    serde_json::Error,
>)
    ensures
        r is Ok <==> parses_as_json_object(text@),
{
    serde_json::from_str(text)
}

/// Relies on `serde_json::Map::get`, and on the `Display` of `serde_json::Value`
/// for the JSON text of the value found.
#[verifier::external_body]
fn json_entry_text(m: &serde_json::Map<String, serde_json::Value>, key: &str) -> (r: Option<
    String,
>)
    ensures
        r is Some <==> json_entries(*m).contains_key(key@),
        r matches Some(s) ==> s@ == json_entries(*m)[key@],
{
    match m.get(key) {
        Some(v) => Some(v.to_string()),
        None => None,
    }
}

/// Why the group table could not be loaded.
#[derive(Debug, Clone, Copy, PartialEq, Eq, Structural)]
pub enum ConfigError {
    /// The configuration file could not be read.
    Unreadable,
    /// The text is not one JSON object.
    Malformed,
}

/// The group table. Keys are used as written in the file; a lookup upper-cases
/// the key it is given, so the keys are meant to be upper-case.
pub struct GroupTable {
    groups: serde_json::Map<String, serde_json::Value>,
}

impl View for GroupTable {
    type V = Map<Seq<char>, Seq<char>>;

    closed spec fn view(&self) -> Map<Seq<char>, Seq<char>> {
        json_entries(self.groups)
    }
}

/// What a lookup of `key` in a table with `entries` gives: the entry at the
/// upper-cased key, if there is one.
pub open spec fn lookup_of(entries: Map<Seq<char>, Seq<char>>, key: Seq<char>) -> Option<
    Seq<char>,
> {
    if entries.contains_key(upper_of(key)) {
        Some(entries[upper_of(key)])
    } else {
        None
    }
}

impl GroupTable {
    /// Reads a table from JSON text, which must be one JSON object.
    pub fn from_json(text: &str) -> (r: Result<GroupTable, ConfigError>)
        ensures
            r is Ok <==> parses_as_json_object(text@),
            r is Err ==> r == Err::<GroupTable, ConfigError>(ConfigError::Malformed),
    {
        match parse_json_object(text) {
            Ok(groups) => Ok(GroupTable { groups }),
            Err(_) => Err(ConfigError::Malformed),
        }
    }

    /// The entry at `key` exactly as given.
    pub fn get_exact(&self, key: &str) -> (r: Option<String>)
        ensures
            r is Some <==> self@.contains_key(key@),
            r matches Some(s) ==> s@ == self@[key@],
    {
        json_entry_text(&self.groups, key)
    }

    /// The entry at the upper-cased `key`.
    pub fn lookup(&self, key: &str) -> (r: Option<String>)
        ensures
            r is Some <==> lookup_of(self@, key@) is Some,
            r matches Some(s) ==> lookup_of(self@, key@) == Some(s@),
    {
        let upper = uppercase(key);
        self.get_exact(upper.as_str())
    }
}

} // verus!
