use coveralls::env::{pull_request_from, Value};
use coveralls::{Env, Error};

fn env_of(vars: &[(&str, &str)]) -> Env {
    let mut env = Env::new();
    for (name, value) in vars {
        env.set_var(name, value);
    }
    env
}

#[test]
fn unset_variable_reads_as_none() {
    let env = Env::new();
    assert_eq!(env.get_var("CI_NAME"), Ok(None));
}

#[test]
fn empty_variable_reads_as_none() {
    let env = env_of(&[("CI_NAME", "")]);
    assert_eq!(env.get_var("CI_NAME"), Ok(None));
}

#[test]
fn set_variable_reads_as_its_text() {
    let env = env_of(&[("CI_NAME", "travis-ci"), ("OTHER", "x")]);
    assert_eq!(env.get_var("CI_NAME"), Ok(Some(String::from("travis-ci"))));
    assert_eq!(env.get_var("OTHER"), Ok(Some(String::from("x"))));
    assert_eq!(env.get_var("CI_NAM"), Ok(None));
}

#[test]
fn later_binding_replaces_earlier_one() {
    let env = env_of(&[("A", "1"), ("B", "2"), ("A", "3")]);
    assert_eq!(env.get_var("A"), Ok(Some(String::from("3"))));
    let env = env_of(&[("A", "1"), ("A", "")]);
    assert_eq!(env.get_var("A"), Ok(None));
}

#[test]
fn variable_that_is_no_text_fails() {
    let mut env = Env::new();
    env.bind("BAD", Value::Opaque(String::from("\"a\\xFF\"")));
    let err = env.get_var("BAD").unwrap_err();
    assert_eq!(err, Error::Variable(String::from("\"a\\xFF\"")));
    assert_eq!(err.message(), "\"a\\xFF\"");
    assert_eq!(env.get_var("GOOD"), Ok(None));
}

#[test]
fn github_branch_from_heads_ref() {
    let env = env_of(&[("GITHUB_REF", "refs/heads/main"), ("GITHUB_HEAD_REF", "other")]);
    assert_eq!(env.get_github_actions_branch(), Ok(Some(String::from("main"))));
}

#[test]
fn github_branch_keeps_slashes_of_the_name() {
    let env = env_of(&[("GITHUB_REF", "refs/heads/feature/x")]);
    assert_eq!(env.get_github_actions_branch(), Ok(Some(String::from("feature/x"))));
}

#[test]
fn github_branch_from_tags_ref() {
    let env = env_of(&[("GITHUB_REF", "refs/tags/v1.0")]);
    assert_eq!(env.get_github_actions_branch(), Ok(Some(String::from("v1.0"))));
}

#[test]
fn github_branch_falls_back_to_head_ref() {
    let env = env_of(&[("GITHUB_REF", "refs/pull/42/merge"), ("GITHUB_HEAD_REF", "feature")]);
    assert_eq!(env.get_github_actions_branch(), Ok(Some(String::from("feature"))));
    let env = env_of(&[("GITHUB_HEAD_REF", "feature")]);
    assert_eq!(env.get_github_actions_branch(), Ok(Some(String::from("feature"))));
    let env = env_of(&[("GITHUB_REF", "refs/heads/")]);
    assert_eq!(env.get_github_actions_branch(), Ok(None));
    let env = env_of(&[("GITHUB_REF", "xrefs/heads/main")]);
    assert_eq!(env.get_github_actions_branch(), Ok(None));
}

#[test]
fn github_branch_fails_on_unreadable_ref() {
    let mut env = env_of(&[("GITHUB_HEAD_REF", "feature")]);
    env.bind("GITHUB_REF", Value::Opaque(String::from("\"\\xFF\"")));
    assert_eq!(
        env.get_github_actions_branch(),
        Err(Error::Variable(String::from("\"\\xFF\"")))
    );
}

#[test]
fn github_head_ref_is_read_only_when_needed() {
    let mut env = env_of(&[("GITHUB_REF", "refs/heads/main")]);
    env.bind("GITHUB_HEAD_REF", Value::Opaque(String::from("\"\\xFF\"")));
    assert_eq!(env.get_github_actions_branch(), Ok(Some(String::from("main"))));
    let mut env = env_of(&[("GITHUB_REF", "refs/pull/1/merge")]);
    env.bind("GITHUB_HEAD_REF", Value::Opaque(String::from("\"\\xFF\"")));
    assert_eq!(
        env.get_github_actions_branch(),
        Err(Error::Variable(String::from("\"\\xFF\"")))
    );
}

#[test]
fn github_pull_request_is_the_number_in_the_ref() {
    let env = env_of(&[("GITHUB_REF", "refs/pull/42/merge")]);
    assert_eq!(env.get_github_actions_pull_request(), Ok(Some(String::from("42"))));
    let env = env_of(&[("GITHUB_REF", "refs/pull/42")]);
    assert_eq!(env.get_github_actions_pull_request(), Ok(Some(String::from("42"))));
}

#[test]
fn github_pull_request_is_none_for_other_refs() {
    let env = env_of(&[("GITHUB_REF", "refs/heads/main")]);
    assert_eq!(env.get_github_actions_pull_request(), Ok(None));
    let env = env_of(&[("GITHUB_REF", "refs/pull/")]);
    assert_eq!(env.get_github_actions_pull_request(), Ok(None));
    let env = env_of(&[("GITHUB_REF", "refs/pull//merge")]);
    assert_eq!(env.get_github_actions_pull_request(), Ok(None));
    assert_eq!(Env::new().get_github_actions_pull_request(), Ok(None));
}

#[test]
fn pull_request_from_capture() {
    assert_eq!(pull_request_from("42/merge"), Some(String::from("42")));
    assert_eq!(pull_request_from("42"), Some(String::from("42")));
    assert_eq!(pull_request_from("/merge"), None);
    assert_eq!(pull_request_from(""), None);
}
