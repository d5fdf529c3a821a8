//! Looking the repository up with the git tool: which commands to run, and
//! what their output says.

use vstd::prelude::*;
use crate::error::{Error, ErrorView};
use crate::git::fetcher::LogValueKind;
use crate::text::{
    chars_of, ends_with, lines, lines_of, skip_spaces, skip_spaces_in, skip_word, skip_word_in,
    slice, trim, trimmed,
};

verus! {

/// What a string looks like when it is formatted with `{:?}`: between double
/// quotes, with the characters escaped that `str`'s `Debug` escapes.
pub uninterp spec fn quoted_form(text: Seq<char>) -> Seq<char>;

/// Formats `text` with `{:?}`, that is with the `Debug` implementation of
/// `str`. Trusted: the result is the one that [`quoted_form`] names.
#[verifier::external_body]
pub(crate) fn quoted(text: &str) -> (out: String)
    ensures
        out@ == quoted_form(text@),
{
    format!("{:?}", text)
}

/// One question to the git tool.
#[derive(Copy, Clone, Debug, PartialEq, Eq, Structural)]
pub enum Query {
    /// The branch that is checked out.
    Branch,
    /// One value of the head commit.
    Log(LogValueKind),
    /// The remotes with their URLs.
    Remotes,
}

/// The arguments with which the git tool answers `query`.
pub open spec fn arguments_of(query: Query) -> Seq<Seq<char>> {
    match query {
        Query::Branch => seq!["rev-parse"@, "--abbrev-ref"@, "HEAD"@],
        Query::Log(kind) => seq![
            "--no-pager"@,
            "log"@,
            "-1"@,
            "--pretty=format:%"@ + kind.format_text(),
        ],
        Query::Remotes => seq!["remote"@, "-v"@],
    }
}

/// The arguments with which the git tool answers `query`.
pub fn arguments(query: Query) -> (out: Vec<String>)
    ensures
        out.deep_view() == arguments_of(query),
{
    let mut out: Vec<String> = Vec::new();
    match query {
        Query::Branch => {
            out.push("rev-parse".to_owned());
            out.push("--abbrev-ref".to_owned());
            out.push("HEAD".to_owned());
        },
        Query::Log(kind) => {
            let mut pretty = "--pretty=format:%".to_owned();
            pretty.append(kind.to_format_str());
            out.push("--no-pager".to_owned());
            out.push("log".to_owned());
            out.push("-1".to_owned());
            out.push(pretty);
        },
        Query::Remotes => {
            out.push("remote".to_owned());
            out.push("-v".to_owned());
        },
    }
    assert(out.deep_view() =~= arguments_of(query));
    out
}

/// The diagnostic for a run of the git tool that ended in failure.
pub open spec fn failure_text(status: Seq<char>, stdout: Seq<char>, stderr: Seq<char>) -> Seq<
    char,
> {
    "GIT command return code "@ + status + "\nSTDOUT: "@ + quoted_form(stdout) + "\nSTDERR: "@
        + quoted_form(stderr)
}

/// The failure to report when the git tool ended with `status`, having
/// written `stdout` and `stderr`.
pub fn command_failure(status: &str, stdout: &str, stderr: &str) -> (e: Error)
    ensures
        e@ == ErrorView::Vcs(failure_text(status@, stdout@, stderr@)),
{
    let mut text = "GIT command return code ".to_owned();
    text.append(status);
    text.append("\nSTDOUT: ");
    text.append(quoted(stdout).as_str());
    text.append("\nSTDERR: ");
    text.append(quoted(stderr).as_str());
    Error::Vcs(text)
}

/// What an answer of the git tool holds: its text without the whitespace
/// around it, or nothing when nothing is left.
pub open spec fn answer_in(output: Seq<char>) -> Option<Seq<char>> {
    if trimmed(output).len() == 0 {
        None
    } else {
        Some(trimmed(output))
    }
}

/// What an answer of the git tool holds.
pub fn parse_answer(output: &str) -> (res: Option<String>)
    ensures
        res.deep_view() == answer_in(output@),
{
    let text = trim(output);
    if text.as_str().is_empty() {
        None
    } else {
        Some(text)
    }
}

/// The mark at the end of a line of `git remote -v` that names the URL to
/// fetch from.
pub open spec fn fetch_mark() -> Seq<char> {
    " (fetch)"@
}

/// The remote that a line of `git remote -v` names: where the line ends in
/// the fetch mark, its first two runs of characters that are no whitespace, as
/// name and URL; nothing where the line ends otherwise or holds one run only.
pub open spec fn remote_in(line: Seq<char>) -> Option<(Seq<char>, Seq<char>)> {
    let name_from = skip_spaces(line, 0);
    let name_to = skip_word(line, name_from);
    let url_from = skip_spaces(line, name_to);
    let url_to = skip_word(line, url_from);
    if fetch_mark().is_suffix_of(line) && url_from < line.len() {
        Some((line.subrange(name_from, name_to), line.subrange(url_from, url_to)))
    } else {
        None
    }
}

/// The remotes that lines name, in the order of the lines.
pub open spec fn remotes_among(lines: Seq<Seq<char>>) -> Seq<(Seq<char>, Seq<char>)>
    decreases lines.len(),
{
    if lines.len() == 0 {
        Seq::empty()
    } else {
        match remote_in(lines.last()) {
            Some(remote) => remotes_among(lines.drop_last()).push(remote),
            None => remotes_among(lines.drop_last()),
        }
    }
}

/// The remotes that the output of `git remote -v` names, or nothing when it
/// names none.
pub open spec fn remotes_in(output: Seq<char>) -> Option<Seq<(Seq<char>, Seq<char>)>> {
    let found = remotes_among(lines_of(trimmed(output)));
    if found.len() == 0 {
        None
    } else {
        Some(found)
    }
}

/// The remote that a line of `git remote -v` names.
pub fn extract_remote(line: &str) -> (res: Option<(String, String)>)
    ensures
        res.deep_view() == remote_in(line@),
{
    if ends_with(line, " (fetch)") {
        let chars = chars_of(line);
        let name_from = skip_spaces_in(&chars, 0);
        let name_to = skip_word_in(&chars, name_from);
        let url_from = skip_spaces_in(&chars, name_to);
        let url_to = skip_word_in(&chars, url_from);
        if url_from < chars.len() {
            Some((slice(line, name_from, name_to), slice(line, url_from, url_to)))
        } else {
            None
        }
    } else {
        None
    }
}

/// The remotes that the output of `git remote -v` names.
pub fn parse_remotes(output: &str) -> (res: Option<Vec<(String, String)>>)
    ensures
        res.deep_view() == remotes_in(output@),
{
    let text = trim(output);
    let all = lines(text.as_str());
    let mut found: Vec<(String, String)> = Vec::new();
    let mut i: usize = 0;
    assert(found.deep_view() =~= Seq::<(Seq<char>, Seq<char>)>::empty());
    assert(all.deep_view().take(0) =~= Seq::<Seq<char>>::empty());
    while i < all.len()
        invariant
            i <= all.len(),
            found.deep_view() == remotes_among(all.deep_view().take(i as int)),
        decreases all.len() - i,
    {
        let ghost before = found.deep_view();
        assert(all.deep_view().take(i + 1).drop_last() =~= all.deep_view().take(i as int));
        assert(all.deep_view().take(i + 1).last() == all[i as int]@);
        if let Some(remote) = extract_remote(all[i].as_str()) {
            found.push(remote);
            assert(found.deep_view() =~= before.push(remote.deep_view()));
        }
        i += 1;
    }
    assert(all.deep_view().take(i as int) =~= all.deep_view());
    if found.len() == 0 {
        None
    } else {
        Some(found)
    }
}

} // verus!
