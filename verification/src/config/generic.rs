//! Reads the variables that describe the service named by `CI_NAME`.

use vstd::prelude::*;
use crate::config::{first_failure, or, replace, Config, ConfigView};
use crate::env::{text_of, Env, ValueView};
use crate::error::Error;

verus! {

/// The variables read, in the order in which they are read.
pub open spec fn names() -> Seq<Seq<char>> {
    seq![
        "CI_PROJECT_ID"@,
        "CI_BUILD_NUMBER"@,
        "CI_BUILD_ID"@,
        "CI_BUILD_URL"@,
        "CI_BUILD_VERSION"@,
        "CI_JOB_ID"@,
        "CI_JOB_NAME"@,
        "CI_JOB_NUMBER"@,
        "CI_PULL_REQUEST"@,
        "CI_REPO_NAME"@,
        "CI_COMMIT"@,
        "CI_REMOTE"@,
        "CI_REMOTE_URL"@,
        "CI_AUTHOR_NAME"@,
        "CI_AUTHOR_EMAIL"@,
        "CI_COMMITER_NAME"@,
        "CI_COMMITTER_EMAIL"@,
        "CI_BRANCH"@,
        "CI_TAG"@,
    ]
}

/// `c` after each variable that is set has replaced the value it stands for.
pub open spec fn loaded(c: ConfigView, env: Map<Seq<char>, ValueView>) -> ConfigView {
    ConfigView {
        service_project_id: or(text_of(env, "CI_PROJECT_ID"@), c.service_project_id),
        service_build_number: or(text_of(env, "CI_BUILD_NUMBER"@), c.service_build_number),
        service_build_id: or(text_of(env, "CI_BUILD_ID"@), c.service_build_id),
        service_build_url: or(text_of(env, "CI_BUILD_URL"@), c.service_build_url),
        service_build_version: or(text_of(env, "CI_BUILD_VERSION"@), c.service_build_version),
        service_job_id: or(text_of(env, "CI_JOB_ID"@), c.service_job_id),
        service_job_name: or(text_of(env, "CI_JOB_NAME"@), c.service_job_name),
        service_job_number: or(text_of(env, "CI_JOB_NUMBER"@), c.service_job_number),
        service_pull_request: or(text_of(env, "CI_PULL_REQUEST"@), c.service_pull_request),
        service_repo_name: or(text_of(env, "CI_REPO_NAME"@), c.service_repo_name),
        git_id: or(text_of(env, "CI_COMMIT"@), c.git_id),
        git_remote_name: or(text_of(env, "CI_REMOTE"@), c.git_remote_name),
        git_remote_url: or(text_of(env, "CI_REMOTE_URL"@), c.git_remote_url),
        git_author_name: or(text_of(env, "CI_AUTHOR_NAME"@), c.git_author_name),
        git_author_email: or(text_of(env, "CI_AUTHOR_EMAIL"@), c.git_author_email),
        git_committer_name: or(text_of(env, "CI_COMMITER_NAME"@), c.git_committer_name),
        git_committer_email: or(text_of(env, "CI_COMMITTER_EMAIL"@), c.git_committer_email),
        git_branch: or(text_of(env, "CI_BRANCH"@), c.git_branch),
        git_tag: or(text_of(env, "CI_TAG"@), c.git_tag),
        ..c
    }
}

/// Takes into `config` what the variables that go with `CI_NAME` say. Fails on
/// the first variable that cannot be read; what `config` holds after a failure
/// is not stated.
pub fn load_config(config: &mut Config, env: &Env) -> (res: Result<(), Error>)
    ensures
        match first_failure(env@, names(), 0) {
            Some(e) => res matches Err(x) && x@ == e,
            None => res is Ok && final(config)@ == loaded(old(config)@, env@),
        },
{
    proof {
        reveal_with_fuel(first_failure, 20);
    }
    replace(&mut config.service_project_id, env.get_var("CI_PROJECT_ID")?);
    replace(&mut config.service_build_number, env.get_var("CI_BUILD_NUMBER")?);
    replace(&mut config.service_build_id, env.get_var("CI_BUILD_ID")?);
    replace(&mut config.service_build_url, env.get_var("CI_BUILD_URL")?);
    replace(&mut config.service_build_version, env.get_var("CI_BUILD_VERSION")?);
    replace(&mut config.service_job_id, env.get_var("CI_JOB_ID")?);
    replace(&mut config.service_job_name, env.get_var("CI_JOB_NAME")?);
    replace(&mut config.service_job_number, env.get_var("CI_JOB_NUMBER")?);
    replace(&mut config.service_pull_request, env.get_var("CI_PULL_REQUEST")?);
    replace(&mut config.service_repo_name, env.get_var("CI_REPO_NAME")?);
    replace(&mut config.git_id, env.get_var("CI_COMMIT")?);
    replace(&mut config.git_remote_name, env.get_var("CI_REMOTE")?);
    replace(&mut config.git_remote_url, env.get_var("CI_REMOTE_URL")?);
    replace(&mut config.git_author_name, env.get_var("CI_AUTHOR_NAME")?);
    replace(&mut config.git_author_email, env.get_var("CI_AUTHOR_EMAIL")?);
    replace(&mut config.git_committer_name, env.get_var("CI_COMMITER_NAME")?);
    replace(&mut config.git_committer_email, env.get_var("CI_COMMITTER_EMAIL")?);
    replace(&mut config.git_branch, env.get_var("CI_BRANCH")?);
    replace(&mut config.git_tag, env.get_var("CI_TAG")?);
    Ok(())
}

} // verus!
