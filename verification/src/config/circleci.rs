//! Reads the variables of CircleCI.

use vstd::prelude::*;
use crate::config::{
    first_failure, or, or_last_segment, replace, replace_with_last_segment,
    Config, ConfigView,
};
use crate::env::{text_of, Env, ValueView};
use crate::error::Error;

verus! {

/// The variables read, in the order in which they are read.
pub open spec fn names() -> Seq<Seq<char>> {
    seq![
        "CIRCLE_PROJECT_ID"@,
        "CIRCLE_WORKFLOW_JOB_ID"@,
        "CIRCLE_BUILD_NUM"@,
        "CIRCLE_JOB"@,
        "CIRCLE_PULL_REQUEST"@,
        "CIRCLE_BUILD_URL"@,
        "CIRCLE_BRANCH"@,
        "CIRCLE_TAG"@,
        "CIRCLE_SHA1"@,
    ]
}

/// `c` after each variable that is set has replaced the value it stands for.
/// Of the pull request only what follows its last `/` is kept.
pub open spec fn loaded(c: ConfigView, env: Map<Seq<char>, ValueView>) -> ConfigView {
    ConfigView {
        service_project_id: or(text_of(env, "CIRCLE_PROJECT_ID"@), c.service_project_id),
        service_job_id: or(text_of(env, "CIRCLE_WORKFLOW_JOB_ID"@), c.service_job_id),
        service_build_number: or(text_of(env, "CIRCLE_BUILD_NUM"@), c.service_build_number),
        service_job_name: or(text_of(env, "CIRCLE_JOB"@), c.service_job_name),
        service_pull_request: or_last_segment(
            text_of(env, "CIRCLE_PULL_REQUEST"@),
            c.service_pull_request,
        ),
        service_build_url: or(text_of(env, "CIRCLE_BUILD_URL"@), c.service_build_url),
        git_branch: or(text_of(env, "CIRCLE_BRANCH"@), c.git_branch),
        git_tag: or(text_of(env, "CIRCLE_TAG"@), c.git_tag),
        git_id: or(text_of(env, "CIRCLE_SHA1"@), c.git_id),
        ..c
    }
}

/// Takes into `config` what the variables of CircleCI say. Fails on the first
/// variable that cannot be read; what `config` holds after a failure is not
/// stated.
pub fn load_config(config: &mut Config, env: &Env) -> (res: Result<(), Error>)
    ensures
        match first_failure(env@, names(), 0) {
            Some(e) => res matches Err(x) && x@ == e,
            None => res is Ok && final(config)@ == loaded(old(config)@, env@),
        },
{
    proof {
        reveal_with_fuel(first_failure, 10);
    }
    replace(&mut config.service_project_id, env.get_var("CIRCLE_PROJECT_ID")?);
    replace(&mut config.service_job_id, env.get_var("CIRCLE_WORKFLOW_JOB_ID")?);
    replace(&mut config.service_build_number, env.get_var("CIRCLE_BUILD_NUM")?);
    replace(&mut config.service_job_name, env.get_var("CIRCLE_JOB")?);
    replace_with_last_segment(
        &mut config.service_pull_request,
        env.get_var("CIRCLE_PULL_REQUEST")?,
    );
    replace(&mut config.service_build_url, env.get_var("CIRCLE_BUILD_URL")?);
    replace(&mut config.git_branch, env.get_var("CIRCLE_BRANCH")?);
    replace(&mut config.git_tag, env.get_var("CIRCLE_TAG")?);
    replace(&mut config.git_id, env.get_var("CIRCLE_SHA1")?);
    Ok(())
}

} // verus!
