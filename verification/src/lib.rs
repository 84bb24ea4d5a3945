//! Resolve a project's dependencies to their upstream source repositories.
//!
//! Given the text of a project manifest, the library extracts the declared
//! dependency names, builds the registry metadata URL for each name, reads
//! the upstream repository URL out of a registry reply, classifies that URL
//! (only repositories hosted on `github.com` are cloned), and decides for
//! each dependency whether to clone it or to skip it and why. A small
//! scheduler bounds the number of metadata requests in flight at two.
//!
//! All I/O — reading the manifest file, the HTTP requests, spawning the
//! clone subprocess — is left to the embedding program; the library holds
//! the decisions and their proofs.

pub mod harness;
pub mod manifest;
pub mod messages;
pub mod plan;
pub mod registry;
pub mod urls;
