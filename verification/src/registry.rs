//! Reading the upstream repository URL out of a registry metadata reply.

use vstd::prelude::*;

verus! {

/// The string at `crate.repository` in a registry reply body: `Some` exactly
/// when the body is valid JSON holding a string at that path. Named, not
/// defined: the JSON grammar belongs to the `serde_json` crate.
pub uninterp spec fn json_repository_field(body: Seq<char>) -> Option<Seq<char>>;

/// Relies on `serde_json::from_str::<serde_json::Value>`, `Value::get` and
/// `Value::as_str`: the value at `crate.repository` is a function of the
/// body alone.
#[verifier::external_body]
fn extract_repository(body: &str) -> (r: Option<String>)
    ensures
        r is Some <==> json_repository_field(body@) is Some,
        r is Some ==> r.unwrap()@ == json_repository_field(body@).unwrap(),
{
    let v: serde_json::Value = match serde_json::from_str(body) {
        Ok(v) => v,
        Err(_) => return None,
    };
    match v.get("crate").and_then(|c| c.get("repository")).and_then(|r| r.as_str()) {
        Some(s) => Some(s.to_owned()),
        None => None,
    }
}

/// The fixed `User-Agent` the registry client identifies itself with.
pub fn user_agent() -> (r: &'static str)
    ensures
        r@ == "cargo-crate-src"@,
{
    "cargo-crate-src"
}

/// The upstream repository URL inside a registry metadata reply. `None`
/// exactly when the body holds no string at `crate.repository` — a
/// per-dependency error: the dependency is skipped and the run continues.
pub fn repository_url(body: &str) -> (r: Option<String>)
    ensures
        r is Some <==> json_repository_field(body@) is Some,
        r is Some ==> r.unwrap()@ == json_repository_field(body@).unwrap(),
{
    extract_repository(body)
}

} // verus!
