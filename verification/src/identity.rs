//! Deciding whether a committer is the locally configured user, so the
//! annotation can say "You" instead of a name.

use vstd::prelude::*;
use crate::gitio;
use crate::model::BlameError;

verus! {

/// When a committer identity matches a configured identity: both the name
/// and the email must be present on both sides and equal, character for
/// character, with no normalization. An absent value on either side never
/// matches.
pub open spec fn identity_matches_spec(
    committer_name: Option<Seq<char>>,
    committer_email: Option<Seq<char>>,
    config_name: Option<Seq<char>>,
    config_email: Option<Seq<char>>,
) -> bool {
    &&& committer_name matches Some(cn) && config_name matches Some(gn) && cn == gn
    &&& committer_email matches Some(ce) && config_email matches Some(ge) && ce == ge
}

/// The character sequences of an optional string, for stating specs over
/// optional values.
pub open spec fn view_opt(s: Option<String>) -> Option<Seq<char>> {
    match s {
        Some(v) => Some(v@),
        None => None,
    }
}

/// Compare a committer identity against a configured identity: true only
/// when both the name and the email are present on both sides and equal.
pub fn identity_matches(
    committer_name: &Option<String>,
    committer_email: &Option<String>,
    config_name: &Option<String>,
    config_email: &Option<String>,
) -> (r: bool)
    ensures
        r == identity_matches_spec(
            view_opt(*committer_name),
            view_opt(*committer_email),
            view_opt(*config_name),
            view_opt(*config_email),
        ),
{
    let name_ok = match (committer_name, config_name) {
        (Some(cn), Some(gn)) => cn.eq(gn),
        _ => false,
    };
    let email_ok = match (committer_email, config_email) {
        (Some(ce), Some(ge)) => ce.eq(ge),
        _ => false,
    };
    name_ok && email_ok
}

/// Decide whether the given committer identity is the locally configured
/// user: `user.name` and `user.email` from the effective, merged
/// configuration scope seen from `repo` — repository-local over global
/// and system. Unset keys are treated as non-matching, not as an error;
/// only a configuration store that cannot be opened is an error.
pub fn is_local_user(
    repo: &git2::Repository,
    committer_name: &Option<String>,
    committer_email: &Option<String>,
) -> (r: Result<bool, BlameError>)
    ensures
        r matches Err(e) ==> e == BlameError::ConfigError,
        r matches Ok(b) && b ==> committer_name is Some && committer_email is Some,
{
    let config = match gitio::repo_config(repo) {
        Ok(c) => c,
        Err(_) => {
            return Err(BlameError::ConfigError);
        },
    };
    let config_name = match gitio::config_get_string(&config, "user.name") {
        Ok(s) => Some(s),
        Err(_) => None,
    };
    let config_email = match gitio::config_get_string(&config, "user.email") {
        Ok(s) => Some(s),
        Err(_) => None,
    };
    Ok(identity_matches(committer_name, committer_email, &config_name, &config_email))
}

} // verus!
