//! Reads the variables of Travis CI.

use vstd::prelude::*;
use crate::config::{
    first_failure, or, or_last_segment, replace, replace_with_last_segment,
    Config, ConfigView,
};
use crate::env::{text_of, Env, ValueView};
use crate::error::Error;

verus! {

/// The variables read, in the order in which they are read.
pub open spec fn names() -> Seq<Seq<char>> {
    seq![
        "TRAVIS_BRANCH"@,
        "TRAVIS_JOB_ID"@,
        "TRAVIS_BUILD_NUMBER"@,
        "TRAVIS_PULL_REQUEST"@,
        "TRAVIS_BUILD_WEB_URL"@,
        "TRAVIS_JOB_NUMBER"@,
    ]
}

/// `c` after each variable that is set has replaced the value it stands for.
/// Of the pull request only what follows its last `/` is kept.
pub open spec fn loaded(c: ConfigView, env: Map<Seq<char>, ValueView>) -> ConfigView {
    ConfigView {
        git_branch: or(text_of(env, "TRAVIS_BRANCH"@), c.git_branch),
        service_job_id: or(text_of(env, "TRAVIS_JOB_ID"@), c.service_job_id),
        service_build_number: or(text_of(env, "TRAVIS_BUILD_NUMBER"@), c.service_build_number),
        service_pull_request: or_last_segment(
            text_of(env, "TRAVIS_PULL_REQUEST"@),
            c.service_pull_request,
        ),
        service_build_url: or(text_of(env, "TRAVIS_BUILD_WEB_URL"@), c.service_build_url),
        service_job_number: or(text_of(env, "TRAVIS_JOB_NUMBER"@), c.service_job_number),
        ..c
    }
}

/// Takes into `config` what the variables of Travis CI say. Fails on the first
/// variable that cannot be read; what `config` holds after a failure is not
/// stated.
pub fn load_config(config: &mut Config, env: &Env) -> (res: Result<(), Error>)
    ensures
        match first_failure(env@, names(), 0) {
            Some(e) => res matches Err(x) && x@ == e,
            None => res is Ok && final(config)@ == loaded(old(config)@, env@),
        },
{
    proof {
        reveal_with_fuel(first_failure, 7);
    }
    replace(&mut config.git_branch, env.get_var("TRAVIS_BRANCH")?);
    replace(&mut config.service_job_id, env.get_var("TRAVIS_JOB_ID")?);
    replace(&mut config.service_build_number, env.get_var("TRAVIS_BUILD_NUMBER")?);
    replace_with_last_segment(
        &mut config.service_pull_request,
        env.get_var("TRAVIS_PULL_REQUEST")?,
    );
    replace(&mut config.service_build_url, env.get_var("TRAVIS_BUILD_WEB_URL")?);
    replace(&mut config.service_job_number, env.get_var("TRAVIS_JOB_NUMBER")?);
    Ok(())
}

} // verus!
