//! The human-readable progress lines, each under the fixed `crate-src:` tag.

use vstd::prelude::*;
use vstd::string::*;

verus! {

/// The line announcing the fetch of one dependency's metadata.
pub fn fetching_line(name: &str) -> (r: String)
    ensures
        r@ == "crate-src: Fetching "@ + name@ + " from crates.io ..."@,
{
    let mut s = "crate-src: Fetching ".to_owned();
    s.append(name);
    s.append(" from crates.io ...");
    s
}

/// The line announcing the clone of one repository.
pub fn cloning_line(url: &str) -> (r: String)
    ensures
        r@ == "crate-src: Cloning from "@ + url@ + " ..."@,
{
    let mut s = "crate-src: Cloning from ".to_owned();
    s.append(url);
    s.append(" ...");
    s
}

/// The informational line for a repository skipped because it is not hosted
/// on the whitelisted provider.
pub fn skip_non_github_line(repo: &str) -> (r: String)
    ensures
        r@ == "crate-src: Skipped to clone "@ + repo@
            + " because repository isn't in github.com"@,
{
    let mut s = "crate-src: Skipped to clone ".to_owned();
    s.append(repo);
    s.append(" because repository isn't in github.com");
    s
}

/// The informational line for a repository skipped because its destination
/// already exists.
pub fn skip_exists_line(repo: &str) -> (r: String)
    ensures
        r@ == "crate-src: Skipped to clone "@ + repo@ + " because it's already existed"@,
{
    let mut s = "crate-src: Skipped to clone ".to_owned();
    s.append(repo);
    s.append(" because it's already existed");
    s
}

/// The line reporting a per-dependency error.
pub fn error_line(detail: &str) -> (r: String)
    ensures
        r@ == "crate-src: Got an error: "@ + detail@,
{
    let mut s = "crate-src: Got an error: ".to_owned();
    s.append(detail);
    s
}

/// The fatal line for a missing manifest.
pub fn missing_manifest_line() -> (r: String)
    ensures
        r@ == "crate-src: Failed to find Cargo.toml"@,
{
    "crate-src: Failed to find Cargo.toml".to_owned()
}

} // verus!
