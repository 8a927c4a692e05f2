use std::time::{SystemTime, UNIX_EPOCH};

use blam::identity::{identity_matches, is_local_user};
use blam::model::BlameError;

const TEST_NAME: &str = "Blam Test User";
const TEST_EMAIL: &str = "blam-test@example.com";

/// Creates a throwaway repository whose repository-local configuration
/// carries a known identity, so identity lookups have something definite
/// to compare against without touching any shared configuration scope.
fn repo_with_identity(tag: &str) -> git2::Repository {
    let nanos = SystemTime::now().duration_since(UNIX_EPOCH).unwrap().as_nanos();
    let dir = format!("/tmp/blam_{}_{}", tag, nanos);
    let repo = git2::Repository::init(&dir).expect("init repository");
    {
        let mut config = repo.config().expect("open repository config");
        config.set_str("user.name", TEST_NAME).expect("set user.name");
        config.set_str("user.email", TEST_EMAIL).expect("set user.email");
    }
    repo
}

fn s(v: &str) -> Option<String> {
    Some(v.to_string())
}

#[test]
fn matches_when_both_equal() {
    assert!(identity_matches(&s("Ann"), &s("ann@x.org"), &s("Ann"), &s("ann@x.org")));
}

#[test]
fn no_match_when_email_differs() {
    assert!(!identity_matches(&s("Ann"), &s("other@example.com"), &s("Ann"), &s("ann@x.org")));
}

#[test]
fn no_match_when_name_differs_by_case() {
    assert!(!identity_matches(&s("ann"), &s("ann@x.org"), &s("Ann"), &s("ann@x.org")));
}

#[test]
fn no_match_when_committer_absent() {
    assert!(!identity_matches(&None, &None, &s("Ann"), &s("ann@x.org")));
    assert!(!identity_matches(&s("Ann"), &None, &s("Ann"), &s("ann@x.org")));
}

#[test]
fn no_match_when_config_absent() {
    assert!(!identity_matches(&s("Ann"), &s("ann@x.org"), &None, &None));
    // Absent on both sides is still not a match.
    assert!(!identity_matches(&None, &s("ann@x.org"), &None, &s("ann@x.org")));
}

#[test]
fn local_user_matches_configured_identity() {
    let repo = repo_with_identity("id_match");
    assert_eq!(is_local_user(&repo, &s(TEST_NAME), &s(TEST_EMAIL)), Ok(true));
}

#[test]
fn local_user_rejects_other_email() {
    let repo = repo_with_identity("id_email");
    assert_eq!(is_local_user(&repo, &s(TEST_NAME), &s("other@example.com")), Ok(false));
}

#[test]
fn local_user_rejects_absent_identity() {
    let repo = repo_with_identity("id_absent");
    assert_eq!(is_local_user(&repo, &None, &None), Ok(false));
}

#[test]
fn config_error_is_the_only_error() {
    // Whatever the machine's configuration, the lookup either succeeds or
    // reports that the configuration store could not be opened.
    let repo = repo_with_identity("id_kinds");
    match is_local_user(&repo, &s("Ann"), &s("ann@x.org")) {
        Ok(_) => {}
        Err(e) => assert_eq!(e, BlameError::ConfigError),
    }
}
