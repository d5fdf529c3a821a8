//! Reads the variables of AppVeyor.

use vstd::prelude::*;
use crate::config::{first_failure, or, replace, Config, ConfigView};
use crate::env::{text_of, Env, ValueView};
use crate::error::Error;

verus! {

/// The variables read, in the order in which they are read.
pub open spec fn names() -> Seq<Seq<char>> {
    seq![
        "APPVEYOR_JOB_ID"@,
        "APPVEYOR_BUILD_NUMBER"@,
        "APPVEYOR_PULL_REQUEST_NUMBER"@,
        "APPVEYOR_JOB_NUMBER"@,
        "APPVEYOR_PROJECT_ID"@,
        "APPVEYOR_BUILD_ID"@,
        "APPVEYOR_BUILD_VERSION"@,
        "APPVEYOR_JOB_NAME"@,
        "APPVEYOR_REPO_NAME"@,
        "APPVEYOR_REPO_BRANCH"@,
        "APPVEYOR_REPO_TAG_NAME"@,
        "APPVEYOR_REPO_COMMIT"@,
        "APPVEYOR_REPO_COMMIT_MESSAGE"@,
        "APPVEYOR_REPO_COMMIT_AUTHOR"@,
        "APPVEYOR_REPO_COMMIT_AUTHOR_EMAIL"@,
    ]
}

/// `c` after each variable that is set has replaced the value it stands for.
pub open spec fn loaded(c: ConfigView, env: Map<Seq<char>, ValueView>) -> ConfigView {
    ConfigView {
        service_job_id: or(text_of(env, "APPVEYOR_JOB_ID"@), c.service_job_id),
        service_build_number: or(text_of(env, "APPVEYOR_BUILD_NUMBER"@), c.service_build_number),
        service_pull_request: or(
            text_of(env, "APPVEYOR_PULL_REQUEST_NUMBER"@),
            c.service_pull_request,
        ),
        service_job_number: or(text_of(env, "APPVEYOR_JOB_NUMBER"@), c.service_job_number),
        service_project_id: or(text_of(env, "APPVEYOR_PROJECT_ID"@), c.service_project_id),
        service_build_id: or(text_of(env, "APPVEYOR_BUILD_ID"@), c.service_build_id),
        service_build_version: or(text_of(env, "APPVEYOR_BUILD_VERSION"@), c.service_build_version),
        service_job_name: or(text_of(env, "APPVEYOR_JOB_NAME"@), c.service_job_name),
        service_repo_name: or(text_of(env, "APPVEYOR_REPO_NAME"@), c.service_repo_name),
        git_branch: or(text_of(env, "APPVEYOR_REPO_BRANCH"@), c.git_branch),
        git_tag: or(text_of(env, "APPVEYOR_REPO_TAG_NAME"@), c.git_tag),
        git_id: or(text_of(env, "APPVEYOR_REPO_COMMIT"@), c.git_id),
        git_message: or(text_of(env, "APPVEYOR_REPO_COMMIT_MESSAGE"@), c.git_message),
        git_author_name: or(text_of(env, "APPVEYOR_REPO_COMMIT_AUTHOR"@), c.git_author_name),
        git_author_email: or(
            text_of(env, "APPVEYOR_REPO_COMMIT_AUTHOR_EMAIL"@),
            c.git_author_email,
        ),
        ..c
    }
}

/// Takes into `config` what the variables of AppVeyor say. Fails on the first
/// variable that cannot be read; what `config` holds after a failure is not
/// stated.
pub fn load_config(config: &mut Config, env: &Env) -> (res: Result<(), Error>)
    ensures
        match first_failure(env@, names(), 0) {
            Some(e) => res matches Err(x) && x@ == e,
            None => res is Ok && final(config)@ == loaded(old(config)@, env@),
        },
{
    proof {
        reveal_with_fuel(first_failure, 16);
    }
    replace(&mut config.service_job_id, env.get_var("APPVEYOR_JOB_ID")?);
    replace(&mut config.service_build_number, env.get_var("APPVEYOR_BUILD_NUMBER")?);
    replace(&mut config.service_pull_request, env.get_var("APPVEYOR_PULL_REQUEST_NUMBER")?);
    replace(&mut config.service_job_number, env.get_var("APPVEYOR_JOB_NUMBER")?);
    replace(&mut config.service_project_id, env.get_var("APPVEYOR_PROJECT_ID")?);
    replace(&mut config.service_build_id, env.get_var("APPVEYOR_BUILD_ID")?);
    replace(&mut config.service_build_version, env.get_var("APPVEYOR_BUILD_VERSION")?);
    replace(&mut config.service_job_name, env.get_var("APPVEYOR_JOB_NAME")?);
    replace(&mut config.service_repo_name, env.get_var("APPVEYOR_REPO_NAME")?);
    replace(&mut config.git_branch, env.get_var("APPVEYOR_REPO_BRANCH")?);
    replace(&mut config.git_tag, env.get_var("APPVEYOR_REPO_TAG_NAME")?);
    replace(&mut config.git_id, env.get_var("APPVEYOR_REPO_COMMIT")?);
    replace(&mut config.git_message, env.get_var("APPVEYOR_REPO_COMMIT_MESSAGE")?);
    replace(&mut config.git_author_name, env.get_var("APPVEYOR_REPO_COMMIT_AUTHOR")?);
    replace(&mut config.git_author_email, env.get_var("APPVEYOR_REPO_COMMIT_AUTHOR_EMAIL")?);
    Ok(())
}

} // verus!
