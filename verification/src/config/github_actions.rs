//! Reads the variables of GitHub Actions.

use vstd::prelude::*;
use crate::config::{first_failure, or, replace, Config, ConfigView};
use crate::env::{github_branch_of, github_pull_request_of, text_of, Env, ValueView};
use crate::error::{Error, ErrorView};

verus! {

/// The variables read as they stand, in the order in which they are read.
pub open spec fn names() -> Seq<Seq<char>> {
    seq!["GITHUB_JOB"@, "GITHUB_RUN_ID"@, "GITHUB_RUN_NUMBER"@]
}

/// The branch or the pull request that the ref names, if it could be read.
pub open spec fn found(read: Result<Option<Seq<char>>, ErrorView>) -> Option<Seq<char>> {
    match read {
        Ok(value) => value,
        Err(_) => None,
    }
}

/// The failure to read the ref, or else one of the variables read as they
/// stand.
pub open spec fn failure(env: Map<Seq<char>, ValueView>) -> Option<ErrorView> {
    match github_branch_of(env) {
        Err(e) => Some(e),
        Ok(_) => first_failure(env, names(), 0),
    }
}

/// `c` after each value that is found has replaced the one it stands for.
pub open spec fn loaded(c: ConfigView, env: Map<Seq<char>, ValueView>) -> ConfigView {
    ConfigView {
        git_branch: or(found(github_branch_of(env)), c.git_branch),
        service_job_id: or(text_of(env, "GITHUB_JOB"@), c.service_job_id),
        service_build_number: or(text_of(env, "GITHUB_RUN_ID"@), c.service_build_number),
        service_pull_request: or(found(github_pull_request_of(env)), c.service_pull_request),
        service_job_number: or(text_of(env, "GITHUB_RUN_NUMBER"@), c.service_job_number),
        ..c
    }
}

/// Takes into `config` what the variables of GitHub Actions say. Fails on
/// the first variable that cannot be read; `config` is then of no use.
pub fn load_config(config: &mut Config, env: &Env) -> (res: Result<(), Error>)
    ensures
        match failure(env@) {
            Some(e) => res matches Err(x) && x@ == e,
            None => res is Ok && final(config)@ == loaded(old(config)@, env@),
        },
{
    proof {
        reveal_with_fuel(first_failure, 4);
    }
    replace(&mut config.git_branch, env.get_github_actions_branch()?);
    replace(&mut config.service_job_id, env.get_var("GITHUB_JOB")?);
    replace(&mut config.service_build_number, env.get_var("GITHUB_RUN_ID")?);
    replace(&mut config.service_pull_request, env.get_github_actions_pull_request()?);
    replace(&mut config.service_job_number, env.get_var("GITHUB_RUN_NUMBER")?);
    Ok(())
}

} // verus!
