//! Reads the variables that describe the service named by
//! `COVERALLS_SERVICE_NAME`.

use vstd::prelude::*;
use crate::config::{first_failure, or, replace, Config, ConfigView};
use crate::env::{text_of, Env, ValueView};
use crate::error::Error;

verus! {

/// The variables read, in the order in which they are read.
pub open spec fn names() -> Seq<Seq<char>> {
    seq![
        "COVERALLS_SERVICE_NUMBER"@,
        "COVERALLS_BUILD_URL"@,
        "COVERALLS_SERVICE_JOB_ID"@,
        "COVERALLS_SERVICE_JOB_NUMBER"@,
        "COVERALLS_PULL_REQUEST"@,
        "COVERALLS_BRANCH"@,
    ]
}

/// `c` after each variable that is set has replaced the value it stands for.
pub open spec fn loaded(c: ConfigView, env: Map<Seq<char>, ValueView>) -> ConfigView {
    ConfigView {
        service_build_number: or(text_of(env, "COVERALLS_SERVICE_NUMBER"@), c.service_build_number),
        service_build_url: or(text_of(env, "COVERALLS_BUILD_URL"@), c.service_build_url),
        service_job_id: or(text_of(env, "COVERALLS_SERVICE_JOB_ID"@), c.service_job_id),
        service_job_number: or(text_of(env, "COVERALLS_SERVICE_JOB_NUMBER"@), c.service_job_number),
        service_pull_request: or(text_of(env, "COVERALLS_PULL_REQUEST"@), c.service_pull_request),
        git_branch: or(text_of(env, "COVERALLS_BRANCH"@), c.git_branch),
        ..c
    }
}

/// Takes into `config` what the variables that go with
/// `COVERALLS_SERVICE_NAME` say. Fails on the first variable that cannot be
/// read; what `config` holds after a failure is not stated.
pub fn load_config(config: &mut Config, env: &Env) -> (res: Result<(), Error>)
    ensures
        match first_failure(env@, names(), 0) {
            Some(e) => res matches Err(x) && x@ == e,
            None => res is Ok && final(config)@ == loaded(old(config)@, env@),
        },
{
    proof {
        reveal_with_fuel(first_failure, 7);
    }
    replace(&mut config.service_build_number, env.get_var("COVERALLS_SERVICE_NUMBER")?);
    replace(&mut config.service_build_url, env.get_var("COVERALLS_BUILD_URL")?);
    replace(&mut config.service_job_id, env.get_var("COVERALLS_SERVICE_JOB_ID")?);
    replace(&mut config.service_job_number, env.get_var("COVERALLS_SERVICE_JOB_NUMBER")?);
    replace(&mut config.service_pull_request, env.get_var("COVERALLS_PULL_REQUEST")?);
    replace(&mut config.git_branch, env.get_var("COVERALLS_BRANCH")?);
    Ok(())
}

} // verus!
