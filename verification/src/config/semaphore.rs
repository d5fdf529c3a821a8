//! Reads the variables of Semaphore. A value may stand in a variable of the
//! classic service or in one of version 2; the classic one is read first, so
//! that of two that are set the one of version 2 stays.

use vstd::prelude::*;
use crate::config::{first_failure, or, replace, Config, ConfigView};
use crate::env::{text_of, Env, ValueView};
use crate::error::Error;

verus! {

/// The variables read, in the order in which they are read.
pub open spec fn names() -> Seq<Seq<char>> {
    seq![
        "SEMAPHORE_GIT_BRANCH"@,
        "SEMAPHORE_JOB_UUID"@,
        "SEMAPHORE_JOB_ID"@,
        "SEMAPHORE_EXECUTABLE_UUID"@,
        "SEMAPHORE_WORKFLOW_ID"@,
        "SEMAPHORE_BRANCH_ID"@,
        "SEMAPHORE_GIT_PR_NUMBER"@,
        "SEMAPHORE_WORKFLOW_NUMBER"@,
    ]
}

/// `c` after each variable that is set has replaced the value it stands for.
pub open spec fn loaded(c: ConfigView, env: Map<Seq<char>, ValueView>) -> ConfigView {
    ConfigView {
        git_branch: or(text_of(env, "SEMAPHORE_GIT_BRANCH"@), c.git_branch),
        service_job_id: or(
            text_of(env, "SEMAPHORE_JOB_ID"@),
            or(text_of(env, "SEMAPHORE_JOB_UUID"@), c.service_job_id),
        ),
        service_build_number: or(
            text_of(env, "SEMAPHORE_WORKFLOW_ID"@),
            or(text_of(env, "SEMAPHORE_EXECUTABLE_UUID"@), c.service_build_number),
        ),
        service_pull_request: or(
            text_of(env, "SEMAPHORE_GIT_PR_NUMBER"@),
            or(text_of(env, "SEMAPHORE_BRANCH_ID"@), c.service_pull_request),
        ),
        service_job_number: or(text_of(env, "SEMAPHORE_WORKFLOW_NUMBER"@), c.service_job_number),
        ..c
    }
}

/// Takes into `config` what the variables of Semaphore say. Fails on the first
/// variable that cannot be read; what `config` holds after a failure is not
/// stated.
pub fn load_config(config: &mut Config, env: &Env) -> (res: Result<(), Error>)
    ensures
        match first_failure(env@, names(), 0) {
            Some(e) => res matches Err(x) && x@ == e,
            None => res is Ok && final(config)@ == loaded(old(config)@, env@),
        },
{
    proof {
        reveal_with_fuel(first_failure, 9);
    }
    replace(&mut config.git_branch, env.get_var("SEMAPHORE_GIT_BRANCH")?);
    replace(&mut config.service_job_id, env.get_var("SEMAPHORE_JOB_UUID")?);
    replace(&mut config.service_job_id, env.get_var("SEMAPHORE_JOB_ID")?);
    replace(&mut config.service_build_number, env.get_var("SEMAPHORE_EXECUTABLE_UUID")?);
    replace(&mut config.service_build_number, env.get_var("SEMAPHORE_WORKFLOW_ID")?);
    replace(&mut config.service_pull_request, env.get_var("SEMAPHORE_BRANCH_ID")?);
    replace(&mut config.service_pull_request, env.get_var("SEMAPHORE_GIT_PR_NUMBER")?);
    replace(&mut config.service_job_number, env.get_var("SEMAPHORE_WORKFLOW_NUMBER")?);
    Ok(())
}

} // verus!
