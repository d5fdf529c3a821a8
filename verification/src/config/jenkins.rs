//! Reads the variables of Jenkins.

use vstd::prelude::*;
use crate::config::{
    first_failure, or, or_last_segment, replace, replace_with_last_segment,
    Config, ConfigView,
};
use crate::env::{text_of, Env, ValueView};
use crate::error::Error;

verus! {

/// The variables read, in the order in which they are read.
pub open spec fn names() -> Seq<Seq<char>> {
    seq![
        "BUILD_ID"@,
        "BUILD_NUMBER"@,
        "CI_PULL_REQUEST"@,
        "BUILD_URL"@,
    ]
}

/// `c` after each variable that is set has replaced the value it stands for.
/// Of the pull request only what follows its last `/` is kept.
pub open spec fn loaded(c: ConfigView, env: Map<Seq<char>, ValueView>) -> ConfigView {
    ConfigView {
        service_job_id: or(text_of(env, "BUILD_ID"@), c.service_job_id),
        service_build_number: or(text_of(env, "BUILD_NUMBER"@), c.service_build_number),
        service_pull_request: or_last_segment(
            text_of(env, "CI_PULL_REQUEST"@),
            c.service_pull_request,
        ),
        service_build_url: or(text_of(env, "BUILD_URL"@), c.service_build_url),
        ..c
    }
}

/// Takes into `config` what the variables of Jenkins say. Fails on the first
/// variable that cannot be read; what `config` holds after a failure is not
/// stated.
pub fn load_config(config: &mut Config, env: &Env) -> (res: Result<(), Error>)
    ensures
        match first_failure(env@, names(), 0) {
            Some(e) => res matches Err(x) && x@ == e,
            None => res is Ok && final(config)@ == loaded(old(config)@, env@),
        },
{
    proof {
        reveal_with_fuel(first_failure, 5);
    }
    replace(&mut config.service_job_id, env.get_var("BUILD_ID")?);
    replace(&mut config.service_build_number, env.get_var("BUILD_NUMBER")?);
    replace_with_last_segment(&mut config.service_pull_request, env.get_var("CI_PULL_REQUEST")?);
    replace(&mut config.service_build_url, env.get_var("BUILD_URL")?);
    Ok(())
}

} // verus!
