//! The command table resolver.
//!
//! A project may declare logical actions in a table file: a flat mapping from
//! an action name to a single shell command string. Resolution distinguishes
//! three failures: no table at all, a table without the requested key, and a
//! key whose value is not a plain string. On success the resolver returns the
//! literal command string unmodified; composing trailing arguments onto it is
//! the caller's concern.
//!
//! The table is TOML text and is parsed by the `toml` crate behind trusted
//! wrappers. The model of a parsed document is a map from key to
//! `Option<Seq<char>>`: `Some` holds the string value of a string-valued key,
//! `None` marks a key whose value has some other shape.

use vstd::prelude::*;
use vstd::string::*;

verus! {

/// The model of the TOML document `text`: `None` when the text is not valid
/// TOML, otherwise the top-level mapping with each string-valued key carrying
/// its string and every other key carrying `None`.
pub uninterp spec fn toml_table(text: Seq<char>) -> Option<Map<Seq<char>, Option<Seq<char>>>>;

/// The top-level mapping held by a parsed TOML value, in the same shape as
/// [`toml_table`]; empty for a value that is not a table.
pub uninterp spec fn table_actions(t: toml::Value) -> Map<Seq<char>, Option<Seq<char>>>;

/// What `toml::Value::as_str` returns for a value: its contents when it is a
/// TOML string, `None` otherwise.
pub uninterp spec fn value_str(v: toml::Value) -> Option<Seq<char>>;

#[verifier::external_type_specification]
#[verifier::external_body]
pub struct ExTomlValue(toml::Value);

#[verifier::external_type_specification]
#[verifier::external_body]
pub struct ExTomlDeError(toml::de::Error);

/// Relies on `toml::from_str::<toml::Value>`: parsing is a function of the
/// text alone; it succeeds exactly on valid TOML and yields the document's
/// top-level table.
#[verifier::external_body]
pub(crate) fn parse_table(text: &str) -> (r: Result<toml::Value, toml::de::Error>)
    ensures
        r is Ok <==> toml_table(text@) is Some,
        r is Ok ==> table_actions(r->Ok_0) == toml_table(text@)->Some_0,
{
    toml::from_str::<toml::Value>(text)
}

/// Relies on `toml::Value::get` with a string index: on a table value it
/// looks the key up in the top-level mapping, returning the entry when the
/// key is present.
#[verifier::external_body]
pub(crate) fn table_get<'a>(t: &'a toml::Value, key: &str) -> (r: Option<&'a toml::Value>)
    ensures
        r is Some <==> table_actions(*t).contains_key(key@),
        r is Some ==> value_str(*r->Some_0) == table_actions(*t)[key@],
{
    t.get(key)
}

/// Relies on `toml::Value::as_str`: it returns the contents of a TOML string
/// and `None` for any other shape of value.
#[verifier::external_body]
pub(crate) fn value_as_str<'a>(v: &'a toml::Value) -> (r: Option<&'a str>)
    ensures
        r is Some <==> value_str(*v) is Some,
        r is Some ==> r->Some_0@ == value_str(*v)->Some_0,
{
    v.as_str()
}

/// Why an action name did not resolve to a command string.
#[derive(Debug, Clone, Copy, PartialEq, Eq, Structural)]
pub enum ResolveError {
    /// No command table is present at all.
    TableNotFound,
    /// A table is present but its text is not valid TOML.
    TableInvalid,
    /// The table parses but has no entry under the requested name.
    ActionNotFound,
    /// The entry exists but its value is not a plain string.
    ActionMalformed,
}

/// The view of an optional table text.
pub open spec fn table_view(table: Option<&str>) -> Option<Seq<char>> {
    match table {
        None => None,
        Some(text) => Some(text@),
    }
}

/// What resolution returns for a table (`None` meaning the table file is
/// absent) and an action name.
pub open spec fn resolve_spec(table: Option<Seq<char>>, action: Seq<char>) -> Result<
    Seq<char>,
    ResolveError,
> {
    match table {
        None => Err(ResolveError::TableNotFound),
        Some(text) => match toml_table(text) {
            None => Err(ResolveError::TableInvalid),
            Some(actions) => if !actions.contains_key(action) {
                Err(ResolveError::ActionNotFound)
            } else {
                match actions[action] {
                    None => Err(ResolveError::ActionMalformed),
                    Some(command) => Ok(command),
                }
            },
        },
    }
}

/// Resolves an action name against the table text, `None` standing for an
/// absent table file. Returns the literal command string on success and the
/// precise failure otherwise, as [`resolve_spec`] states.
pub fn resolve(table: Option<&str>, action: &str) -> (r: Result<String, ResolveError>)
    ensures
        r is Ok <==> resolve_spec(table_view(table), action@) is Ok,
        r is Ok ==> r->Ok_0@ == resolve_spec(table_view(table), action@)->Ok_0,
        r is Err ==> r->Err_0 == resolve_spec(table_view(table), action@)->Err_0,
{
    match table {
        None => Err(ResolveError::TableNotFound),
        Some(text) => match parse_table(text) {
            Err(_) => Err(ResolveError::TableInvalid),
            Ok(document) => match table_get(&document, action) {
                None => Err(ResolveError::ActionNotFound),
                Some(entry) => match value_as_str(entry) {
                    None => Err(ResolveError::ActionMalformed),
                    Some(command) => Ok(command.to_owned()),
                },
            },
        },
    }
}

} // verus!
