//! Per-dependency decisions and the per-dependency lifecycle.

use vstd::prelude::*;
use crate::urls::is_eligible;
use crate::urls::is_github_url;

verus! {

/// What the pipeline does with one fetched repository URL.
#[derive(Clone, Copy, Debug, PartialEq, Eq, Structural)]
pub enum Action {
    /// The repository is not hosted on the whitelisted provider: skip it.
    SkipNonGithub,
    /// The clone destination already exists: skip it.
    SkipExists,
    /// Spawn the version-control client to clone the repository.
    CloneRepo,
}

/// The decision for a fetched repository URL, given whether the clone
/// destination already exists. The host check comes first, so an ineligible
/// URL is reported as such even when its destination exists.
pub open spec fn action_for(u: Seq<char>, dest_exists: bool) -> Action {
    if !is_eligible(u) {
        Action::SkipNonGithub
    } else if dest_exists {
        Action::SkipExists
    } else {
        Action::CloneRepo
    }
}

/// Decide what to do with one fetched repository URL. `dest_exists` is
/// whether the clone destination (the output directory joined with the
/// URL's last path segment) already exists as a filesystem entry.
pub fn decide(url: &str, dest_exists: bool) -> (a: Action)
    ensures
        a == action_for(url@, dest_exists),
        dest_exists ==> a != Action::CloneRepo,
{
    if !is_github_url(url) {
        Action::SkipNonGithub
    } else if dest_exists {
        Action::SkipExists
    } else {
        Action::CloneRepo
    }
}

/// Law: a dependency whose destination exists prior to the run is never
/// cloned — no subprocess is spawned for it, whatever its URL.
pub proof fn lemma_existing_destination_never_cloned(u: Seq<char>)
    ensures
        action_for(u, true) != Action::CloneRepo,
{
}

/// Whether the clone destination exists after one run of the pipeline over
/// a URL, assuming the run's clone, if any, succeeded: it existed before,
/// or the run cloned into it.
pub open spec fn dest_exists_after_run(u: Seq<char>, dest_existed: bool) -> bool {
    dest_existed || action_for(u, dest_existed) == Action::CloneRepo
}

/// Law: the pipeline is idempotent. After a run whose clone succeeded, a
/// second run over the same manifest and output directory decides to clone
/// nothing: every dependency cloned or skipped-as-existing the first time
/// now has an existing destination, and every other one is skipped again
/// for its host.
pub proof fn lemma_second_run_clones_nothing(u: Seq<char>, dest_existed: bool)
    ensures
        action_for(u, dest_exists_after_run(u, dest_existed)) != Action::CloneRepo,
{
}

/// The lifecycle of one dependency, from its place in the manifest to a
/// terminal outcome.
#[derive(Clone, Copy, Debug, PartialEq, Eq, Structural)]
pub enum DepState {
    Queued,
    Fetching,
    FetchFailed,
    Fetched,
    SkippedNonGithub,
    SkippedExists,
    Cloning,
    CloneFailed,
    Cloned,
}

/// What happens to one dependency: its fetch is launched, its fetch
/// completes, its URL is routed by [`decide`], its clone subprocess exits.
#[derive(Clone, Copy, Debug, PartialEq, Eq, Structural)]
pub enum DepEvent {
    Launch,
    FetchOk,
    FetchErr,
    Decided(Action),
    CloneOk,
    CloneErr,
}

/// The per-dependency transition relation. An event that does not apply to
/// the current state leaves it unchanged.
pub open spec fn dep_step(s: DepState, e: DepEvent) -> DepState {
    match (s, e) {
        (DepState::Queued, DepEvent::Launch) => DepState::Fetching,
        (DepState::Fetching, DepEvent::FetchOk) => DepState::Fetched,
        (DepState::Fetching, DepEvent::FetchErr) => DepState::FetchFailed,
        (DepState::Fetched, DepEvent::Decided(Action::SkipNonGithub)) => DepState::SkippedNonGithub,
        (DepState::Fetched, DepEvent::Decided(Action::SkipExists)) => DepState::SkippedExists,
        (DepState::Fetched, DepEvent::Decided(Action::CloneRepo)) => DepState::Cloning,
        (DepState::Cloning, DepEvent::CloneOk) => DepState::Cloned,
        (DepState::Cloning, DepEvent::CloneErr) => DepState::CloneFailed,
        (_, _) => s,
    }
}

/// A state no event leaves.
pub open spec fn is_terminal(s: DepState) -> bool {
    match s {
        DepState::FetchFailed => true,
        DepState::SkippedNonGithub => true,
        DepState::SkippedExists => true,
        DepState::CloneFailed => true,
        DepState::Cloned => true,
        _ => false,
    }
}

/// Advance one dependency's state by one event.
pub fn step(s: DepState, e: DepEvent) -> (t: DepState)
    ensures
        t == dep_step(s, e),
{
    match (s, e) {
        (DepState::Queued, DepEvent::Launch) => DepState::Fetching,
        (DepState::Fetching, DepEvent::FetchOk) => DepState::Fetched,
        (DepState::Fetching, DepEvent::FetchErr) => DepState::FetchFailed,
        (DepState::Fetched, DepEvent::Decided(Action::SkipNonGithub)) => DepState::SkippedNonGithub,
        (DepState::Fetched, DepEvent::Decided(Action::SkipExists)) => DepState::SkippedExists,
        (DepState::Fetched, DepEvent::Decided(Action::CloneRepo)) => DepState::Cloning,
        (DepState::Cloning, DepEvent::CloneOk) => DepState::Cloned,
        (DepState::Cloning, DepEvent::CloneErr) => DepState::CloneFailed,
        (_, _) => s,
    }
}

/// Law: terminal states absorb every event.
pub proof fn lemma_terminal_absorbs(s: DepState, e: DepEvent)
    requires
        is_terminal(s),
    ensures
        dep_step(s, e) == s,
{
}

/// Law: no dependency re-enters the queue.
pub proof fn lemma_never_requeued(s: DepState, e: DepEvent)
    requires
        s != DepState::Queued,
    ensures
        dep_step(s, e) != DepState::Queued,
{
}

} // verus!
