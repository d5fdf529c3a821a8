//! Reads the variables of Buildkite.

use vstd::prelude::*;
use crate::config::{first_failure, or, replace, Config, ConfigView};
use crate::env::{text_of, Env, ValueView};
use crate::error::Error;

verus! {

/// The variables read, in the order in which they are read.
pub open spec fn names() -> Seq<Seq<char>> {
    seq![
        "BUILDKITE_JOB_ID"@,
        "BUILDKITE_BUILD_ID"@,
        "BUILDKITE_PULL_REQUEST"@,
        "BUILDKITE_BUILD_NUMBER"@,
        "BUILDKITE_BUILD_URL"@,
        "BUILDKITE_COMMIT"@,
        "BUILDKITE_MESSAGE"@,
        "BUILDKITE_BRANCH"@,
        "BUILDKITE_TAG"@,
        "BUILDKITE_BUILD_AUTHOR"@,
        "BUILDKITE_BUILD_AUTHOR_EMAIL"@,
        "BUILDKITE_BUILD_CREATOR"@,
        "BUILDKITE_BUILD_CREATOR_EMAIL"@,
    ]
}

/// `c` after each variable that is set has replaced the value it stands for.
pub open spec fn loaded(c: ConfigView, env: Map<Seq<char>, ValueView>) -> ConfigView {
    ConfigView {
        service_job_id: or(text_of(env, "BUILDKITE_JOB_ID"@), c.service_job_id),
        service_build_id: or(text_of(env, "BUILDKITE_BUILD_ID"@), c.service_build_id),
        service_pull_request: or(text_of(env, "BUILDKITE_PULL_REQUEST"@), c.service_pull_request),
        service_build_number: or(text_of(env, "BUILDKITE_BUILD_NUMBER"@), c.service_build_number),
        service_build_url: or(text_of(env, "BUILDKITE_BUILD_URL"@), c.service_build_url),
        git_id: or(text_of(env, "BUILDKITE_COMMIT"@), c.git_id),
        git_message: or(text_of(env, "BUILDKITE_MESSAGE"@), c.git_message),
        git_branch: or(text_of(env, "BUILDKITE_BRANCH"@), c.git_branch),
        git_tag: or(text_of(env, "BUILDKITE_TAG"@), c.git_tag),
        git_author_name: or(text_of(env, "BUILDKITE_BUILD_AUTHOR"@), c.git_author_name),
        git_author_email: or(text_of(env, "BUILDKITE_BUILD_AUTHOR_EMAIL"@), c.git_author_email),
        git_committer_name: or(text_of(env, "BUILDKITE_BUILD_CREATOR"@), c.git_committer_name),
        git_committer_email: or(
            text_of(env, "BUILDKITE_BUILD_CREATOR_EMAIL"@),
            c.git_committer_email,
        ),
        ..c
    }
}

/// Takes into `config` what the variables of Buildkite say. Fails on the first
/// variable that cannot be read; what `config` holds after a failure is not
/// stated.
pub fn load_config(config: &mut Config, env: &Env) -> (res: Result<(), Error>)
    ensures
        match first_failure(env@, names(), 0) {
            Some(e) => res matches Err(x) && x@ == e,
            None => res is Ok && final(config)@ == loaded(old(config)@, env@),
        },
{
    proof {
        reveal_with_fuel(first_failure, 14);
    }
    replace(&mut config.service_job_id, env.get_var("BUILDKITE_JOB_ID")?);
    replace(&mut config.service_build_id, env.get_var("BUILDKITE_BUILD_ID")?);
    replace(&mut config.service_pull_request, env.get_var("BUILDKITE_PULL_REQUEST")?);
    replace(&mut config.service_build_number, env.get_var("BUILDKITE_BUILD_NUMBER")?);
    replace(&mut config.service_build_url, env.get_var("BUILDKITE_BUILD_URL")?);
    replace(&mut config.git_id, env.get_var("BUILDKITE_COMMIT")?);
    replace(&mut config.git_message, env.get_var("BUILDKITE_MESSAGE")?);
    replace(&mut config.git_branch, env.get_var("BUILDKITE_BRANCH")?);
    replace(&mut config.git_tag, env.get_var("BUILDKITE_TAG")?);
    replace(&mut config.git_author_name, env.get_var("BUILDKITE_BUILD_AUTHOR")?);
    replace(&mut config.git_author_email, env.get_var("BUILDKITE_BUILD_AUTHOR_EMAIL")?);
    replace(&mut config.git_committer_name, env.get_var("BUILDKITE_BUILD_CREATOR")?);
    replace(&mut config.git_committer_email, env.get_var("BUILDKITE_BUILD_CREATOR_EMAIL")?);
    Ok(())
}

} // verus!
