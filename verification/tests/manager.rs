use coveralls::cli_args::{CliArgs, CliService, CliServiceArgs};
use coveralls::coverage::SourceFile;
use coveralls::git::head::error_message;
use coveralls::git::{GitFetcher, GitInfos, GitRemote, Strategy};
use coveralls::manager::{is_pruned, normalize, rename};
use coveralls::{Config, CoverallsManager, Coverage, Env, Error, Service};

fn given(value: &str) -> Option<String> {
    Some(String::from(value))
}

fn lookup() -> GitFetcher {
    let mut fetcher = GitFetcher::new(Strategy::Command);
    fetcher.id = given("abc123");
    fetcher.author_name = given("An Author");
    fetcher.author_email = given("author@example.org");
    fetcher.committer_name = given("A Committer");
    fetcher.committer_email = given("committer@example.org");
    fetcher.message = given("a message");
    fetcher.branch = given("main");
    fetcher.remotes =
        Some(vec![(String::from("origin"), String::from("https://example.org/repo.git"))]);
    fetcher
}

fn config_with_token() -> Config {
    let mut config = Config::new(Service::CircleCI, &Env::new()).unwrap();
    config.repo_token = given("SECRET-REDACTED");
    config
}

fn source(name: &str) -> SourceFile {
    SourceFile {
        name: String::from(name),
        source_digest: format!("digest of {}", name),
        coverage: vec![Some(1), None, Some(0)],
        branches: vec![1, 2, 3, 4],
        source: None,
    }
}

fn names(coverage: &Coverage) -> Vec<String> {
    coverage.source_files.iter().map(|file| file.name.clone()).collect()
}

fn payload(files: &[&str]) -> Coverage {
    let mut coverage = Coverage::new();
    coverage.run_at = String::from("2024-01-01 00:00:00 +0000");
    coverage.source_files = files.iter().map(|name| source(name)).collect();
    coverage
}

#[test]
fn apply_config_fills_the_payload() {
    let mut config = config_with_token();
    config.flag_name = given("unit");
    config.service_build_number = given("42");
    config.service_pull_request = given("17");
    config.service_job_id = given("j1");
    let mut coverage = payload(&["src/a.c"]);
    assert_eq!(CoverallsManager::new().apply_config(&config, &lookup(), &mut coverage), Ok(()));
    assert_eq!(coverage.service_name, "circleci");
    assert_eq!(coverage.repo_token, "SECRET-REDACTED");
    assert_eq!(coverage.flag_name, given("unit"));
    assert_eq!(coverage.service_number, "42");
    assert_eq!(coverage.service_pull_request, "17");
    assert_eq!(coverage.service_job_id, "j1");
    assert_eq!(coverage.run_at, "2024-01-01 00:00:00 +0000");
    let git = coverage.git.unwrap();
    assert_eq!(git.head.id, "abc123");
    assert_eq!(git.head.committer_email, "committer@example.org");
    assert_eq!(git.branch, "main");
    assert_eq!(
        git.remotes,
        vec![GitRemote {
            name: String::from("origin"),
            url: String::from("https://example.org/repo.git")
        }]
    );
    assert_eq!(coverage.source_files, vec![source("src/a.c")]);
}

#[test]
fn apply_config_keeps_payload_values_that_the_config_lacks() {
    let config = Config::new(Service::Travis, &Env::new()).unwrap();
    let mut coverage = payload(&[]);
    coverage.repo_token = String::from("payload-token");
    coverage.service_number = String::from("7");
    coverage.service_job_id = String::from("job");
    coverage.service_pull_request = String::from("3");
    coverage.flag_name = given("payload-flag");
    coverage.service_name = String::from("something");
    assert_eq!(CoverallsManager::new().apply_config(&config, &lookup(), &mut coverage), Ok(()));
    assert_eq!(coverage.service_name, "travis-ci");
    assert_eq!(coverage.repo_token, "payload-token");
    assert_eq!(coverage.service_number, "7");
    assert_eq!(coverage.service_job_id, "job");
    assert_eq!(coverage.service_pull_request, "3");
    assert_eq!(coverage.flag_name, given("payload-flag"));
}

#[test]
fn missing_repo_token_is_an_error() {
    let config = Config::new(Service::Travis, &Env::new()).unwrap();
    let mut coverage = payload(&["/etc/passwd", "src/a.c"]);
    let err = CoverallsManager::new().apply_config(&config, &lookup(), &mut coverage).unwrap_err();
    assert_eq!(err, Error::MissingRepoToken);
    assert_eq!(err.message(), "Repo token is missing, set the COVERALLS_REPO_TOKEN env var.");
    assert_eq!(coverage.repo_token, "");
    assert_eq!(names(&coverage), vec!["/etc/passwd", "src/a.c"]);
    assert_eq!(coverage.service_name, "travis-ci");
    assert!(coverage.git.is_some());
}

#[test]
fn empty_repo_token_in_config_is_missing_too() {
    let mut config = Config::new(Service::Travis, &Env::new()).unwrap();
    config.repo_token = given("");
    let mut coverage = payload(&[]);
    coverage.repo_token = String::from("payload-token");
    assert_eq!(
        CoverallsManager::new().apply_config(&config, &lookup(), &mut coverage),
        Err(Error::MissingRepoToken)
    );
}

#[test]
fn incomplete_head_is_reported_before_missing_token() {
    let config = Config::new(Service::Travis, &Env::new()).unwrap();
    let mut fetcher = lookup();
    fetcher.committer_email = None;
    let mut coverage = payload(&["src/a.c"]);
    let err = CoverallsManager::new().apply_config(&config, &fetcher, &mut coverage).unwrap_err();
    assert_eq!(err, Error::Vcs(error_message(Strategy::Command)));
    assert_eq!(coverage.git, None);
    assert_eq!(coverage.service_name, "travis-ci");
    assert_eq!(names(&coverage), vec!["src/a.c"]);
}

#[test]
fn existing_git_block_is_updated_even_when_refused() {
    let config = config_with_token();
    let mut fetcher = lookup();
    fetcher.message = None;
    let mut coverage = payload(&[]);
    let mut known = GitInfos::new();
    known.branch = String::from("old");
    coverage.git = Some(known);
    assert!(CoverallsManager::new().apply_config(&config, &fetcher, &mut coverage).is_err());
    let git = coverage.git.unwrap();
    assert_eq!(git.branch, "main");
    assert_eq!(git.head.id, "abc123");
    assert_eq!(git.head.message, "");
    assert_eq!(coverage.repo_token, "");
}

#[test]
fn refitting_updates_the_git_block_without_duplicating() {
    let mut config = config_with_token();
    config.git_remote_name = given("mirror");
    config.git_remote_url = given("m");
    let mut coverage = payload(&[]);
    let manager = CoverallsManager::new();
    assert_eq!(manager.apply_config(&config, &lookup(), &mut coverage), Ok(()));
    let once = coverage.git.clone().unwrap();
    assert_eq!(once.remotes.len(), 2);
    assert_eq!(manager.apply_config(&config, &lookup(), &mut coverage), Ok(()));
    assert_eq!(coverage.git, Some(once));
}

#[test]
fn absolute_path_is_dropped_when_pruning_absolutes() {
    let mut config = config_with_token();
    config.param_prune_absolutes = true;
    let mut coverage = payload(&["/etc/passwd", "src/a.c"]);
    assert_eq!(CoverallsManager::new().apply_config(&config, &lookup(), &mut coverage), Ok(()));
    assert_eq!(names(&coverage), vec!["src/a.c"]);
}

#[test]
fn absolute_path_is_kept_when_not_pruning_absolutes() {
    let config = config_with_token();
    let mut coverage = payload(&["/etc/passwd", "src/a.c"]);
    assert_eq!(CoverallsManager::new().apply_config(&config, &lookup(), &mut coverage), Ok(()));
    assert_eq!(names(&coverage), vec!["/etc/passwd", "src/a.c"]);
}

#[test]
fn path_under_pruned_directory_is_dropped() {
    let mut config = config_with_token();
    config.param_prune_dirs = vec![String::from("vendor")];
    config.param_src_prefix = given("project");
    let mut coverage = payload(&["vendor/lib/a.c", "src/a.c"]);
    assert_eq!(CoverallsManager::new().apply_config(&config, &lookup(), &mut coverage), Ok(()));
    assert_eq!(names(&coverage), vec!["project/src/a.c"]);
    assert_eq!(coverage.source_files[0].source_digest, "digest of src/a.c");
    assert_eq!(coverage.source_files[0].coverage, vec![Some(1), None, Some(0)]);
    assert_eq!(coverage.source_files[0].branches, vec![1, 2, 3, 4]);
}

#[test]
fn pruning_compares_components_and_keeps_order() {
    let mut config = config_with_token();
    config.param_prune_dirs = vec![String::from("vendor"), String::from("target/debug")];
    let files = vec![
        source("z.c"),
        source("vendor2/a.c"),
        source("vendor/a.c"),
        source("src/vendor/b.c"),
        source("target/debug/x.rs"),
        source("target/release/x.rs"),
        source("a.c"),
    ];
    let kept: Vec<String> =
        normalize(&config, files).into_iter().map(|file| file.name).collect();
    assert_eq!(
        kept,
        vec!["z.c", "vendor2/a.c", "src/vendor/b.c", "target/release/x.rs", "a.c"]
    );
}

#[test]
fn kept_paths_are_rendered_canonically() {
    let mut config = config_with_token();
    assert_eq!(rename(&config, "src//lib/./a.c"), "src/lib/a.c");
    assert_eq!(rename(&config, "./src/a.c"), "./src/a.c");
    config.param_src_prefix = given("project/");
    assert_eq!(rename(&config, "src/a.c"), "project/src/a.c");
    assert_eq!(rename(&config, "./src/a.c"), "project/src/a.c");
    assert_eq!(rename(&config, "/abs/a.c"), "/abs/a.c");
    config.param_src_prefix = given("");
    assert_eq!(rename(&config, "src/a.c"), "src/a.c");
}

#[test]
fn is_pruned_follows_both_rules() {
    let mut config = config_with_token();
    assert!(!is_pruned(&config, "/etc/passwd"));
    assert!(!is_pruned(&config, "vendor/a.c"));
    config.param_prune_absolutes = true;
    assert!(is_pruned(&config, "/etc/passwd"));
    assert!(!is_pruned(&config, "etc/passwd"));
    config.param_prune_dirs = vec![String::from("x"), String::from("vendor")];
    assert!(is_pruned(&config, "vendor/a.c"));
    assert!(is_pruned(&config, "x"));
    assert!(!is_pruned(&config, "y/x"));
}

#[test]
fn resolved_configuration_fits_a_payload() {
    let mut env = Env::new();
    env.set_var("COVERALLS_REPO_TOKEN", "SECRET-REDACTED");
    env.set_var("CIRCLE_BUILD_NUM", "42");
    env.set_var("CIRCLE_PULL_REQUEST", "https://github.com/o/r/pull/17");
    let mut args = CliServiceArgs::new();
    args.service_job_id = given("from-args");
    let mut cli = CliArgs::new(CliService::CircleCI(args));
    cli.prune_absolutes = true;
    cli.source_prefix = given("project");
    cli.prune_dir = Some(vec![String::from("vendor")]);
    let config = Config::resolve(&cli, &env).unwrap();
    let mut coverage = payload(&["/etc/passwd", "vendor/lib/a.c", "src/a.c"]);
    assert_eq!(CoverallsManager::new().apply_config(&config, &lookup(), &mut coverage), Ok(()));
    assert_eq!(coverage.service_name, "circleci");
    assert_eq!(coverage.service_number, "42");
    assert_eq!(coverage.service_pull_request, "17");
    assert_eq!(coverage.service_job_id, "from-args");
    assert_eq!(names(&coverage), vec!["project/src/a.c"]);
}

#[test]
fn submission_form() {
    let form = CoverallsManager::new().send(String::from("{\"repo_token\":\"x\"}"));
    assert_eq!(form.url, "https://coveralls.io/api/v1/jobs");
    assert_eq!(form.field, "json_file");
    assert_eq!(form.file_name, "json_file");
    assert_eq!(form.media_type, "application/json");
    assert_eq!(form.body, "{\"repo_token\":\"x\"}");
}

#[test]
fn answer_with_status_200_is_accepted() {
    let manager = CoverallsManager::new();
    assert_eq!(manager.receive(200, "200 OK", given("{}")), Ok(()));
    assert_eq!(manager.receive(200, "200 OK", None), Ok(()));
}

#[test]
fn answer_with_other_status_is_an_error() {
    let manager = CoverallsManager::new();
    let err = manager
        .receive(422, "422 Unprocessable Entity", given("{\"message\":\"bad token\"}"))
        .unwrap_err();
    assert_eq!(
        err,
        Error::Api(String::from(
            "API status 422 Unprocessable Entity: {\"message\":\"bad token\"}"
        ))
    );
    let err = manager.receive(500, "500 Internal Server Error", None).unwrap_err();
    assert_eq!(
        err.message(),
        "API status 500 Internal Server Error: 500 Internal Server Error"
    );
    assert!(manager.receive(201, "201 Created", given("")).is_err());
}

#[test]
fn show_lists_parameters_and_values() {
    let mut config = Config::new(Service::CircleCI, &Env::new()).unwrap();
    config.repo_token = given("SECRET-REDACTED");
    config.service_build_number = given("42");
    config.git_branch = given("configured");
    config.param_prune_absolutes = true;
    config.param_prune_dirs = vec![String::from("vendor//x"), String::from("target")];
    config.param_src_prefix = given("project/");
    let mut infos = GitInfos::new();
    infos.update(&lookup(), &config).unwrap();
    let lines = config.show(Some(&infos));
    let expected = vec![
        "Parameters:",
        "Prune absolute paths:  true",
        "Prune directories: ... [vendor/x, target]",
        "Source prefix: ....... [project]",
        "",
        "Configuration:",
        "Service name: ........ circleci",
        "Repo token: .......... [SECRET-REDACTED]",
        "Repo name: ........... []",
        "Flag name: ........... []",
        "Service build ID: .... []",
        "Service build number:  [42]",
        "Service build version: []",
        "Service build URL: ... []",
        "Service pull request:  []",
        "Service job ID: ...... []",
        "Service job name: .... []",
        "Service job number: .. []",
        "Git ID: .............. [abc123]",
        "Git branch: .......... [configured]",
        "Git tag: ............. []",
        "Git author name: ..... [An Author]",
        "Git author email: .... [author@example.org]",
        "Git committer name: .. [A Committer]",
        "Git committer email: . [committer@example.org]",
        "Git remote name: ..... [origin]",
        "Git remote URL: ...... [https://example.org/repo.git]",
        "Git message: ......... [a message]",
        "",
    ];
    assert_eq!(lines, expected);
}

#[test]
fn show_without_repository_leaves_values_blank() {
    let config = Config::new(Service::Jenkins, &Env::new()).unwrap();
    let lines = config.show(None);
    assert_eq!(lines.len(), 29);
    assert_eq!(lines[1], "Prune absolute paths:  false");
    assert_eq!(lines[2], "Prune directories: ... []");
    assert_eq!(lines[3], "Source prefix: ....... []");
    assert_eq!(lines[6], "Service name: ........ jenkins");
    assert_eq!(lines[18], "Git ID: .............. []");
    assert_eq!(lines[25], "Git remote name: ..... []");
    let lines = config.show(Some(&GitInfos::new()));
    assert_eq!(lines[25], "Git remote name: ..... []");
    assert_eq!(lines[26], "Git remote URL: ...... []");
}

#[test]
fn kept_paths_are_relative_when_pruning_absolutes() {
    let mut config = config_with_token();
    config.param_prune_absolutes = true;
    config.param_src_prefix = given("project//src/");
    let files = vec![source("/abs/a.c"), source("./b.c"), source("c//d.c"), source("/")];
    let kept: Vec<String> =
        normalize(&config, files).into_iter().map(|file| file.name).collect();
    assert_eq!(kept, vec!["project/src/b.c", "project/src/c/d.c"]);
    for name in &kept {
        assert!(!name.starts_with('/'));
        assert_eq!(&rename(&Config::new(Service::Travis, &Env::new()).unwrap(), name), name);
    }
}
