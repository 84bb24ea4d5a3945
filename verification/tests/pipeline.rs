use cargo_crate_src::harness::Harness;
use cargo_crate_src::manifest::dependency_names;
use cargo_crate_src::messages::cloning_line;
use cargo_crate_src::messages::error_line;
use cargo_crate_src::messages::fetching_line;
use cargo_crate_src::messages::missing_manifest_line;
use cargo_crate_src::messages::skip_exists_line;
use cargo_crate_src::messages::skip_non_github_line;
use cargo_crate_src::plan::decide;
use cargo_crate_src::plan::step;
use cargo_crate_src::plan::Action;
use cargo_crate_src::plan::DepEvent;
use cargo_crate_src::plan::DepState;
use cargo_crate_src::registry::repository_url;
use cargo_crate_src::registry::user_agent;
use cargo_crate_src::urls::api_url;
use cargo_crate_src::urls::clone_argument;
use cargo_crate_src::urls::is_github_url;
use cargo_crate_src::urls::last_segment;

#[test]
fn test_is_github_url() {
    assert!(is_github_url("https://github.com/giraffate/cargo-crate-src"));

    assert!(!is_github_url("https://gitlab.giraffate.com/utils/rust-gitlab"))
}

#[test]
fn bare_host_is_not_eligible() {
    assert!(!is_github_url("https://github.com/"));
}

#[test]
fn classifier_edge_cases() {
    assert!(is_github_url("https://github.com/a/b"));
    assert!(is_github_url("https://github.com/a/b/c"));
    assert!(is_github_url("https://github.com/a/b.git"));
    assert!(!is_github_url("https://github.com/a/"));
    assert!(!is_github_url("https://github.com//b"));
    assert!(!is_github_url("https://github.com/ab"));
    assert!(!is_github_url("http://github.com/a/b"));
    assert!(!is_github_url("https://gitlab.com/x/y"));
    assert!(!is_github_url(""));
}

#[test]
fn manifest_ingest_yields_one_request_url_per_dependency() {
    let body = "[dependencies]\nfoo = \"1.0\"\nbar = \"2.0\"\n";
    let names = dependency_names(body).expect("a valid manifest");
    assert_eq!(names.len(), 2);
    assert!(names.iter().any(|n| n == "foo"));
    assert!(names.iter().any(|n| n == "bar"));
    let urls: Vec<String> = names.iter().map(|n| api_url(n)).collect();
    assert!(urls.iter().any(|u| u == "https://crates.io/api/v1/crates/foo"));
    assert!(urls.iter().any(|u| u == "https://crates.io/api/v1/crates/bar"));
}

#[test]
fn manifest_without_dependencies_table_is_rejected() {
    assert!(dependency_names("[package]\nname = \"x\"\n").is_none());
    assert!(dependency_names("dependencies = 3\n").is_none());
}

#[test]
fn malformed_manifest_is_rejected() {
    assert!(dependency_names("[dependencies\nfoo = \"1.0\"\n").is_none());
}

#[test]
fn empty_dependencies_table_yields_no_names() {
    let names = dependency_names("[dependencies]\n").expect("a valid manifest");
    assert!(names.is_empty());
}

#[test]
fn repository_field_is_extracted() {
    let body = "{\"crate\":{\"repository\":\"https://github.com/giraffate/cargo-crate-src\"}}";
    let url = repository_url(body).expect("a repository field");
    assert_eq!(url, "https://github.com/giraffate/cargo-crate-src");
    assert_ne!(url, body);
}

#[test]
fn reply_without_repository_string_is_rejected() {
    assert!(repository_url("{}").is_none());
    assert!(repository_url("{\"crate\":{}}").is_none());
    assert!(repository_url("{\"crate\":{\"repository\":null}}").is_none());
    assert!(repository_url("{\"crate\":{\"repository\":7}}").is_none());
    assert!(repository_url("not json").is_none());
}

#[test]
fn last_segment_names_the_clone_directory() {
    assert_eq!(
        last_segment("https://github.com/giraffate/cargo-crate-src"),
        "cargo-crate-src"
    );
    assert_eq!(last_segment("no-slash"), "no-slash");
    assert_eq!(last_segment("trailing/"), "");
    assert_eq!(last_segment(""), "");
}

#[test]
fn clone_argument_appends_git_suffix() {
    assert_eq!(
        clone_argument("https://github.com/a/b"),
        "https://github.com/a/b.git"
    );
    // A URL already ending in `.git` is not special-cased.
    assert_eq!(
        clone_argument("https://github.com/a/b.git"),
        "https://github.com/a/b.git.git"
    );
}

#[test]
fn existing_destination_is_skipped_not_cloned() {
    let url = "https://github.com/giraffate/cargo-crate-src";
    let action = decide(url, true);
    assert_eq!(action, Action::SkipExists);
    assert_ne!(action, Action::CloneRepo);
    assert_eq!(
        skip_exists_line(&last_segment(url)),
        "crate-src: Skipped to clone cargo-crate-src because it's already existed"
    );
}

#[test]
fn non_whitelisted_repository_is_skipped() {
    let url = "https://gitlab.com/x/y";
    let action = decide(url, false);
    assert_eq!(action, Action::SkipNonGithub);
    assert_ne!(action, Action::CloneRepo);
    assert_eq!(
        skip_non_github_line(&last_segment(url)),
        "crate-src: Skipped to clone y because repository isn't in github.com"
    );
}

#[test]
fn eligible_fresh_repository_is_cloned() {
    assert_eq!(
        decide("https://github.com/giraffate/cargo-crate-src", false),
        Action::CloneRepo
    );
}

#[test]
fn dependency_lifecycle_runs_to_cloned() {
    let mut s = DepState::Queued;
    s = step(s, DepEvent::Launch);
    assert_eq!(s, DepState::Fetching);
    s = step(s, DepEvent::FetchOk);
    assert_eq!(s, DepState::Fetched);
    s = step(s, DepEvent::Decided(Action::CloneRepo));
    assert_eq!(s, DepState::Cloning);
    s = step(s, DepEvent::CloneOk);
    assert_eq!(s, DepState::Cloned);
}

#[test]
fn dependency_lifecycle_terminal_states_absorb() {
    let failed = step(DepState::Fetching, DepEvent::FetchErr);
    assert_eq!(failed, DepState::FetchFailed);
    assert_eq!(step(failed, DepEvent::Launch), DepState::FetchFailed);
    assert_eq!(step(DepState::Cloned, DepEvent::FetchErr), DepState::Cloned);
    assert_eq!(
        step(DepState::Fetched, DepEvent::Decided(Action::SkipExists)),
        DepState::SkippedExists
    );
    assert_eq!(
        step(DepState::Fetched, DepEvent::Decided(Action::SkipNonGithub)),
        DepState::SkippedNonGithub
    );
    assert_eq!(
        step(DepState::Cloning, DepEvent::CloneErr),
        DepState::CloneFailed
    );
    // An event that does not apply leaves the state unchanged.
    assert_eq!(step(DepState::Queued, DepEvent::CloneOk), DepState::Queued);
}

#[test]
fn harness_bounds_in_flight_requests_at_two() {
    let names = vec!["a".to_string(), "b".to_string(), "c".to_string()];
    let mut h = Harness::new(names);
    assert!(!h.is_done());
    assert!(h.can_launch());
    assert_eq!(h.launch(), "a");
    assert!(h.can_launch());
    assert_eq!(h.launch(), "b");
    // Two fetches are in flight: the third must wait.
    assert!(!h.can_launch());
    h.complete(true);
    assert!(h.can_launch());
    assert_eq!(h.launch(), "c");
    assert!(!h.can_launch());
    // A failed fetch frees its slot like a successful one.
    h.complete(false);
    assert!(!h.is_done());
    h.complete(true);
    assert!(h.is_done());
    assert!(!h.can_launch());
    assert_eq!(h.failures, 1);
}

#[test]
fn registry_client_identifies_itself() {
    assert_eq!(user_agent(), "cargo-crate-src");
}

#[test]
fn progress_lines_carry_the_fixed_tag() {
    assert_eq!(
        fetching_line("foo"),
        "crate-src: Fetching foo from crates.io ..."
    );
    assert_eq!(
        cloning_line("https://github.com/a/b"),
        "crate-src: Cloning from https://github.com/a/b ..."
    );
    assert_eq!(error_line("boom"), "crate-src: Got an error: boom");
    assert_eq!(
        missing_manifest_line(),
        "crate-src: Failed to find Cargo.toml"
    );
}
