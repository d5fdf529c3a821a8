use coveralls::git::fetcher::cmdgit::{
    arguments, command_failure, extract_remote, parse_answer, parse_remotes, Query,
};
use coveralls::git::fetcher::libgit::{remotes_with_url, BranchInfos, HeadRef};
use coveralls::git::head::error_message;
use coveralls::git::{GitFetcher, GitHead, GitInfos, GitRemote, LogValueKind, Strategy};
use coveralls::{Config, Env, Error, Service};

fn text(value: &str) -> Option<String> {
    Some(String::from(value))
}

fn pair(name: &str, url: &str) -> (String, String) {
    (String::from(name), String::from(url))
}

fn remote(name: &str, url: &str) -> GitRemote {
    GitRemote { name: String::from(name), url: String::from(url) }
}

fn full_lookup() -> GitFetcher {
    let mut fetcher = GitFetcher::new(Strategy::Command);
    fetcher.id = text("abc123");
    fetcher.author_name = text("An Author");
    fetcher.author_email = text("author@example.org");
    fetcher.committer_name = text("A Committer");
    fetcher.committer_email = text("committer@example.org");
    fetcher.message = text("a message");
    fetcher.branch = text("main");
    fetcher.remotes = Some(vec![pair("origin", "https://example.org/repo.git")]);
    fetcher
}

fn full_head() -> GitHead {
    GitHead {
        id: String::from("abc123"),
        author_name: String::from("An Author"),
        author_email: String::from("author@example.org"),
        committer_name: String::from("A Committer"),
        committer_email: String::from("committer@example.org"),
        message: String::from("a message"),
    }
}

fn plain_config() -> Config {
    Config::new(Service::Travis, &Env::new()).unwrap()
}

#[test]
fn format_placeholders() {
    assert_eq!(LogValueKind::Id.to_format_str(), "H");
    assert_eq!(LogValueKind::AuthorName.to_format_str(), "aN");
    assert_eq!(LogValueKind::AuthorEmail.to_format_str(), "ae");
    assert_eq!(LogValueKind::CommitterName.to_format_str(), "cN");
    assert_eq!(LogValueKind::CommitterEmail.to_format_str(), "ce");
    assert_eq!(LogValueKind::Message.to_format_str(), "s");
}

#[test]
fn tool_arguments() {
    assert_eq!(arguments(Query::Branch), vec!["rev-parse", "--abbrev-ref", "HEAD"]);
    assert_eq!(
        arguments(Query::Log(LogValueKind::Id)),
        vec!["--no-pager", "log", "-1", "--pretty=format:%H"]
    );
    assert_eq!(
        arguments(Query::Log(LogValueKind::CommitterEmail)),
        vec!["--no-pager", "log", "-1", "--pretty=format:%ce"]
    );
    assert_eq!(arguments(Query::Remotes), vec!["remote", "-v"]);
}

#[test]
fn tool_failure_carries_status_and_output() {
    let err = command_failure("exit status: 128", "some \"out\"\n", "fatal: not a git repository");
    let expected = [
        "GIT command return code exit status: 128",
        "STDOUT: \"some \\\"out\\\"\\n\"",
        "STDERR: \"fatal: not a git repository\"",
    ];
    assert_eq!(err.message(), expected.join("\n"));
    assert!(matches!(err, Error::Vcs(_)));
}

#[test]
fn blank_answer_is_none() {
    assert_eq!(parse_answer("main\n"), text("main"));
    assert_eq!(parse_answer("  a message with spaces \r\n"), text("a message with spaces"));
    assert_eq!(parse_answer("\n"), None);
    assert_eq!(parse_answer(""), None);
    assert_eq!(parse_answer(" \t "), None);
}

#[test]
fn remote_line_with_fetch_mark() {
    assert_eq!(
        extract_remote("origin\thttps://example.org/repo.git (fetch)"),
        Some(pair("origin", "https://example.org/repo.git"))
    );
    assert_eq!(
        extract_remote("  up   git@example.org:o/r.git   extra (fetch)"),
        Some(pair("up", "git@example.org:o/r.git"))
    );
}

#[test]
fn remote_line_without_fetch_mark_is_none() {
    assert_eq!(extract_remote("origin\thttps://example.org/repo.git (push)"), None);
    assert_eq!(extract_remote("origin\thttps://example.org/repo.git (fetch) "), None);
    assert_eq!(extract_remote("origin\thttps://example.org/repo.git(fetch)"), None);
    assert_eq!(extract_remote(""), None);
}

#[test]
fn remote_line_with_one_token_is_none() {
    assert_eq!(extract_remote(" (fetch)"), None);
    assert_eq!(extract_remote("origin (fetch)"), Some(pair("origin", "(fetch)")));
}

#[test]
fn remotes_from_tool_output() {
    let output = "origin\thttps://example.org/repo.git (fetch)\n\
                  origin\thttps://example.org/repo.git (push)\n\
                  upstream\tgit@example.org:up/repo.git (fetch)\n\
                  upstream\tgit@example.org:up/repo.git (push)\n";
    assert_eq!(
        parse_remotes(output),
        Some(vec![
            pair("origin", "https://example.org/repo.git"),
            pair("upstream", "git@example.org:up/repo.git"),
        ])
    );
    let output = "origin\thttps://example.org/repo.git (fetch)\r\nup\tu (fetch)\r\n";
    assert_eq!(
        parse_remotes(output),
        Some(vec![pair("origin", "https://example.org/repo.git"), pair("up", "u")])
    );
}

#[test]
fn no_remotes_is_none() {
    assert_eq!(parse_remotes(""), None);
    assert_eq!(parse_remotes("\n\n"), None);
    assert_eq!(parse_remotes("origin\thttps://example.org/repo.git (push)\n"), None);
}

#[test]
fn head_with_commit() {
    let head = HeadRef { target: text("abc123"), is_branch: true, name: text("refs/heads/main") };
    let infos = BranchInfos::from_repo(&head).unwrap();
    assert_eq!(infos.head_id, "abc123");
    assert_eq!(infos.branch_name, text("refs/heads/main"));
    assert_eq!(infos.get_branch(), text("main"));
}

#[test]
fn head_that_is_no_branch_has_no_branch_name() {
    let head = HeadRef { target: text("abc123"), is_branch: false, name: text("HEAD") };
    let infos = BranchInfos::from_repo(&head).unwrap();
    assert_eq!(infos.head_id, "abc123");
    assert_eq!(infos.branch_name, None);
    assert_eq!(infos.get_branch(), None);
}

#[test]
fn branch_name_outside_heads_yields_no_branch() {
    let infos = BranchInfos {
        head_id: String::from("abc123"),
        branch_name: text("refs/remotes/origin/main"),
    };
    assert_eq!(infos.get_branch(), None);
    let infos =
        BranchInfos { head_id: String::from("abc123"), branch_name: text("refs/heads/a/b") };
    assert_eq!(infos.get_branch(), text("a/b"));
}

#[test]
fn head_without_commit_is_an_error() {
    let head = HeadRef { target: None, is_branch: true, name: text("refs/heads/main") };
    assert_eq!(
        BranchInfos::from_repo(&head).unwrap_err().message(),
        "The head of this repository is a branch that has no ID (name: refs/heads/main)"
    );
    let head = HeadRef { target: None, is_branch: true, name: None };
    assert_eq!(
        BranchInfos::from_repo(&head).unwrap_err().message(),
        "The head of this repository is a branch that has no ID"
    );
    let head = HeadRef { target: None, is_branch: false, name: text("HEAD") };
    assert_eq!(
        BranchInfos::from_repo(&head).unwrap_err(),
        Error::Vcs(String::from("The head of this repository is not a branch and has no ID"))
    );
}

#[test]
fn remotes_without_url_are_left_out() {
    let found = vec![
        (String::from("origin"), text("https://example.org/repo.git")),
        (String::from("broken"), None),
        (String::from("up"), text("u")),
    ];
    assert_eq!(
        remotes_with_url(&found),
        Some(vec![pair("origin", "https://example.org/repo.git"), pair("up", "u")])
    );
    assert_eq!(remotes_with_url(&vec![(String::from("broken"), None)]), None);
    assert_eq!(remotes_with_url(&Vec::new()), None);
}

#[test]
fn lookup_answers() {
    let fetcher = full_lookup();
    assert_eq!(fetcher.get_branch(), text("main"));
    assert_eq!(fetcher.get_log(LogValueKind::Id), text("abc123"));
    assert_eq!(fetcher.get_log(LogValueKind::AuthorName), text("An Author"));
    assert_eq!(fetcher.get_log(LogValueKind::AuthorEmail), text("author@example.org"));
    assert_eq!(fetcher.get_log(LogValueKind::CommitterName), text("A Committer"));
    assert_eq!(fetcher.get_log(LogValueKind::CommitterEmail), text("committer@example.org"));
    assert_eq!(fetcher.get_log(LogValueKind::Message), text("a message"));
    assert_eq!(fetcher.get_remotes(), Some(vec![pair("origin", "https://example.org/repo.git")]));
    let empty = GitFetcher::new(Strategy::Library);
    assert_eq!(empty.get_branch(), None);
    assert_eq!(empty.get_log(LogValueKind::Id), None);
    assert_eq!(empty.get_remotes(), None);
}

#[test]
fn complete_head_passes_the_check() {
    assert_eq!(full_head().check(Strategy::Command), Ok(()));
    assert_eq!(full_head().check(Strategy::Library), Ok(()));
}

#[test]
fn head_with_empty_committer_email_fails_the_check() {
    let mut head = full_head();
    head.committer_email = String::new();
    assert!(head.check(Strategy::Command).is_err());
    assert!(head.check(Strategy::Library).is_err());
}

#[test]
fn head_with_any_empty_value_fails_the_check() {
    for field in 0..6 {
        let mut head = full_head();
        match field {
            0 => head.id = String::new(),
            1 => head.author_name = String::new(),
            2 => head.author_email = String::new(),
            3 => head.committer_name = String::new(),
            4 => head.committer_email = String::new(),
            _ => head.message = String::new(),
        }
        assert!(head.check(Strategy::Library).is_err(), "field {}", field);
    }
    assert!(GitHead::new().check(Strategy::Library).is_err());
}

#[test]
fn check_failure_messages() {
    let asked = "Failed collecting git data. Did you use command line arguments ? \
                 Are you running coveralls inside a git repository ?";
    assert_eq!(GitHead::new().check(Strategy::Library).unwrap_err().message(), asked);
    assert_eq!(
        GitHead::new().check(Strategy::Command).unwrap_err().message(),
        format!("{} Is git installed ?", asked)
    );
    assert_eq!(
        error_message(Strategy::Command),
        GitHead::new().check(Strategy::Command).unwrap_err().message()
    );
}

#[test]
fn head_takes_lookup_then_configuration() {
    let mut head = GitHead::new();
    head.author_name = String::from("Old Author");
    let mut fetcher = full_lookup();
    fetcher.author_name = None;
    head.fetch_from_git(&fetcher);
    assert_eq!(head.id, "abc123");
    assert_eq!(head.author_name, "Old Author");
    assert_eq!(head.message, "a message");
    let mut config = plain_config();
    config.git_id = text("override");
    config.git_message = text("another message");
    head.fetch_from_config(&config);
    assert_eq!(head.id, "override");
    assert_eq!(head.message, "another message");
    assert_eq!(head.author_name, "Old Author");
    assert_eq!(head.committer_email, "committer@example.org");
}

#[test]
fn fetched_remotes_win_and_unmatched_remotes_stay() {
    let mut fetcher = GitFetcher::new(Strategy::Command);
    fetcher.remotes = Some(vec![pair("origin", "new-origin"), pair("fork", "new-fork")]);
    let old = vec![remote("backup", "b"), remote("origin", "old-origin"), remote("mirror", "m")];
    assert_eq!(
        GitRemote::fetch_list(&fetcher, old),
        vec![
            remote("origin", "new-origin"),
            remote("fork", "new-fork"),
            remote("backup", "b"),
            remote("mirror", "m"),
        ]
    );
}

#[test]
fn fetch_list_without_lookup_keeps_known_remotes() {
    let fetcher = GitFetcher::new(Strategy::Command);
    let old = vec![remote("a", "1"), remote("b", "2")];
    assert_eq!(GitRemote::fetch_list(&fetcher, old.clone()), old);
    assert_eq!(GitRemote::fetch_list(&fetcher, Vec::new()), Vec::new());
}

#[test]
fn of_two_known_remotes_with_one_name_the_later_stays() {
    let fetcher = GitFetcher::new(Strategy::Command);
    let old = vec![remote("a", "1"), remote("b", "2"), remote("a", "3")];
    assert_eq!(GitRemote::fetch_list(&fetcher, old), vec![remote("b", "2"), remote("a", "3")]);
}

#[test]
fn merged_remotes_have_distinct_names() {
    let mut fetcher = GitFetcher::new(Strategy::Command);
    fetcher.remotes = Some(vec![pair("origin", "o"), pair("up", "u")]);
    let old = vec![
        remote("up", "x"),
        remote("origin", "y"),
        remote("z", "1"),
        remote("z", "2"),
        remote("origin", "w"),
    ];
    let merged = GitRemote::fetch_list(&fetcher, old);
    for i in 0..merged.len() {
        for j in (i + 1)..merged.len() {
            assert_ne!(merged[i].name, merged[j].name);
        }
    }
    assert_eq!(merged, vec![remote("origin", "o"), remote("up", "u"), remote("z", "2")]);
}

#[test]
fn remote_from_configuration_needs_name_and_url() {
    let mut config = plain_config();
    assert_eq!(GitRemote::fetch_from_config(&config), None);
    config.git_remote_url = text("u");
    assert_eq!(GitRemote::fetch_from_config(&config), None);
    config.git_remote_name = text("origin");
    assert_eq!(GitRemote::fetch_from_config(&config), Some(remote("origin", "u")));
    config.git_remote_url = None;
    config.git_message = text("a message");
    assert_eq!(GitRemote::fetch_from_config(&config), None);
}

#[test]
fn merge_into_updates_or_appends() {
    let mut list = vec![remote("a", "1"), remote("b", "2")];
    GitRemote::merge_into(&mut list, remote("b", "3"));
    assert_eq!(list, vec![remote("a", "1"), remote("b", "3")]);
    GitRemote::merge_into(&mut list, remote("c", "4"));
    assert_eq!(list, vec![remote("a", "1"), remote("b", "3"), remote("c", "4")]);
    let mut empty = Vec::new();
    GitRemote::merge_into(&mut empty, remote("a", "1"));
    assert_eq!(empty, vec![remote("a", "1")]);
}

#[test]
fn update_fills_a_blank_record() {
    let mut infos = GitInfos::new();
    assert_eq!(infos.update(&full_lookup(), &plain_config()), Ok(()));
    assert_eq!(infos.head, full_head());
    assert_eq!(infos.branch, "main");
    assert_eq!(infos.remotes, vec![remote("origin", "https://example.org/repo.git")]);
}

#[test]
fn update_lets_configuration_win_over_lookup() {
    let mut config = plain_config();
    config.git_branch = text("configured");
    config.git_committer_email = text("configured@example.org");
    config.git_remote_name = text("origin");
    config.git_remote_url = text("configured-url");
    let mut infos = GitInfos::new();
    assert_eq!(infos.update(&full_lookup(), &config), Ok(()));
    assert_eq!(infos.branch, "configured");
    assert_eq!(infos.head.committer_email, "configured@example.org");
    assert_eq!(infos.head.id, "abc123");
    assert_eq!(infos.remotes, vec![remote("origin", "configured-url")]);
}

#[test]
fn update_fails_on_incomplete_head_but_keeps_what_it_learned() {
    let mut fetcher = full_lookup();
    fetcher.committer_email = None;
    let mut infos = GitInfos::new();
    let err = infos.update(&fetcher, &plain_config()).unwrap_err();
    assert_eq!(err, Error::Vcs(error_message(Strategy::Command)));
    assert_eq!(infos.head.id, "abc123");
    assert_eq!(infos.head.committer_email, "");
    let mut config = plain_config();
    config.git_committer_email = text("configured@example.org");
    assert_eq!(infos.update(&fetcher, &config), Ok(()));
}

#[test]
fn update_twice_changes_nothing_more() {
    let mut config = plain_config();
    config.git_remote_name = text("extra");
    config.git_remote_url = text("e");
    config.git_message = text("configured message");
    let mut fetcher = full_lookup();
    fetcher.remotes = Some(vec![pair("origin", "o"), pair("up", "u")]);
    let mut infos = GitInfos::new();
    infos.remotes = vec![remote("old", "1"), remote("origin", "2"), remote("old", "3")];
    infos.branch = String::from("before");
    assert_eq!(infos.update(&fetcher, &config), Ok(()));
    let once = infos.clone();
    assert_eq!(
        once.remotes,
        vec![remote("origin", "o"), remote("up", "u"), remote("old", "3"), remote("extra", "e")]
    );
    assert_eq!(infos.update(&fetcher, &config), Ok(()));
    assert_eq!(infos, once);
    assert_eq!(infos.update(&fetcher, &config), Ok(()));
    assert_eq!(infos, once);
}

#[test]
fn remote_lines_agree_with_splitting_at_whitespace() {
    let lines = [
        "origin\thttps://example.org/repo.git (fetch)",
        "origin\thttps://example.org/repo.git (push)",
        "  a   b   c (fetch)",
        "a\u{a0}b (fetch)",
        "one (fetch)",
        " (fetch)",
        "(fetch)",
        "",
        "a b (fetch)\t",
        "a\tb\t(fetch)",
    ];
    for line in lines {
        let expected = if line.ends_with(" (fetch)") {
            let mut parts = line.split_whitespace();
            match (parts.next(), parts.next()) {
                (Some(name), Some(url)) => Some(pair(name, url)),
                _ => None,
            }
        } else {
            None
        };
        assert_eq!(extract_remote(line), expected, "for {:?}", line);
    }
}

#[test]
fn remote_from_a_pair() {
    assert_eq!(GitRemote::new(pair("origin", "u")), remote("origin", "u"));
    let mut fetcher = GitFetcher::new(Strategy::Library);
    assert_eq!(GitRemote::found(&fetcher), Vec::new());
    fetcher.remotes = Some(vec![pair("a", "1"), pair("a", "2")]);
    assert_eq!(GitRemote::found(&fetcher), vec![remote("a", "1"), remote("a", "2")]);
}
