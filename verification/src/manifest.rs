//! Reading the dependency names out of a project manifest.

use vstd::prelude::*;

verus! {

/// The dependency names a manifest text declares: `Some` exactly when the
/// text is valid TOML whose `dependencies` key holds a table, and then that
/// table's keys, each once, in the table's order. Named, not defined: the
/// TOML grammar belongs to the `toml` crate.
pub uninterp spec fn toml_dependency_names(text: Seq<char>) -> Option<Seq<Seq<char>>>;

/// Relies on `toml::from_str::<toml::Table>`, `toml::map::Map::get` and
/// `toml::Value::as_table`: parsing is a function of the text alone, and the
/// keys of a table are unique.
#[verifier::external_body]
fn parse_dependency_names(text: &str) -> (r: Option<Vec<String>>)
    ensures
        r is Some <==> toml_dependency_names(text@) is Some,
        r is Some ==> r.unwrap()@.map_values(|n: String| n@) == toml_dependency_names(
            text@,
        ).unwrap(),
        r is Some ==> r.unwrap()@.map_values(|n: String| n@).no_duplicates(),
{
    let table: toml::Table = match toml::from_str(text) {
        Ok(t) => t,
        Err(_) => return None,
    };
    match table.get("dependencies").and_then(|v| v.as_table()) {
        Some(deps) => Some(deps.keys().cloned().collect()),
        None => None,
    }
}

/// The set of direct dependency names a manifest declares. `None` exactly
/// when the text is not valid TOML with a `dependencies` table — a fatal
/// configuration error for the embedding program. The names are pairwise
/// distinct, so one metadata request per returned name is one request per
/// declared dependency.
pub fn dependency_names(text: &str) -> (r: Option<Vec<String>>)
    ensures
        r is Some <==> toml_dependency_names(text@) is Some,
        r is Some ==> r.unwrap()@.map_values(|n: String| n@) == toml_dependency_names(
            text@,
        ).unwrap(),
        r is Some ==> r.unwrap()@.map_values(|n: String| n@).no_duplicates(),
{
    parse_dependency_names(text)
}

} // verus!
