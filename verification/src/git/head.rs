//! The head commit: the six values that are reported of it.

use vstd::prelude::*;
use crate::config::{Config, ConfigView};
use crate::error::{viewed, Error, ErrorView};
use crate::git::fetcher::{GitFetcher, Strategy};

verus! {

/// The head commit. Every value must be there before the payload is sent.
#[derive(Debug, Clone, PartialEq, Eq)]
pub struct GitHead {
    pub id: String,
    pub author_name: String,
    pub author_email: String,
    pub committer_name: String,
    pub committer_email: String,
    pub message: String,
}

/// A [`GitHead`] with its texts as sequences of characters.
pub struct GitHeadView {
    pub id: Seq<char>,
    pub author_name: Seq<char>,
    pub author_email: Seq<char>,
    pub committer_name: Seq<char>,
    pub committer_email: Seq<char>,
    pub message: Seq<char>,
}

impl View for GitHead {
    type V = GitHeadView;

    open spec fn view(&self) -> GitHeadView {
        GitHeadView {
            id: self.id@,
            author_name: self.author_name@,
            author_email: self.author_email@,
            committer_name: self.committer_name@,
            committer_email: self.committer_email@,
            message: self.message@,
        }
    }
}

/// A head commit of which nothing is known.
pub open spec fn blank_head() -> GitHeadView {
    GitHeadView {
        id: Seq::empty(),
        author_name: Seq::empty(),
        author_email: Seq::empty(),
        committer_name: Seq::empty(),
        committer_email: Seq::empty(),
        message: Seq::empty(),
    }
}

/// `later` where it holds a value, else `earlier`.
pub open spec fn or_text(later: Option<Seq<char>>, earlier: Seq<char>) -> Seq<char> {
    match later {
        Some(value) => value,
        None => earlier,
    }
}

/// Puts `later` in `slot` where it holds a value.
pub fn replace_text(slot: &mut String, later: &Option<String>)
    ensures
        final(slot)@ == or_text(later.deep_view(), old(slot)@),
{
    if let Some(value) = later {
        *slot = value.clone();
    }
}

/// `h` after the values that the configuration gives for the commit have
/// replaced those it held.
pub open spec fn head_from_config(h: GitHeadView, c: ConfigView) -> GitHeadView {
    GitHeadView {
        id: or_text(c.git_id, h.id),
        author_name: or_text(c.git_author_name, h.author_name),
        author_email: or_text(c.git_author_email, h.author_email),
        committer_name: or_text(c.git_committer_name, h.committer_name),
        committer_email: or_text(c.git_committer_email, h.committer_email),
        message: or_text(c.git_message, h.message),
    }
}

/// `h` after the values that a lookup found have replaced those it held.
pub open spec fn head_from_git(h: GitHeadView, f: GitFetcher) -> GitHeadView {
    GitHeadView {
        id: or_text(f.id.deep_view(), h.id),
        author_name: or_text(f.author_name.deep_view(), h.author_name),
        author_email: or_text(f.author_email.deep_view(), h.author_email),
        committer_name: or_text(f.committer_name.deep_view(), h.committer_name),
        committer_email: or_text(f.committer_email.deep_view(), h.committer_email),
        message: or_text(f.message.deep_view(), h.message),
    }
}

/// Whether each of the six values is there.
pub open spec fn complete(h: GitHeadView) -> bool {
    &&& h.id.len() > 0
    &&& h.author_name.len() > 0
    &&& h.author_email.len() > 0
    &&& h.committer_name.len() > 0
    &&& h.committer_email.len() > 0
    &&& h.message.len() > 0
}

/// The diagnostic for a head commit that lacks a value.
pub open spec fn incomplete_text(strategy: Strategy) -> Seq<char> {
    let asked = "Failed collecting git data. "@ + "Did you use command line arguments ? "@
        + "Are you running coveralls inside a git repository ?"@;
    match strategy {
        Strategy::Library => asked,
        Strategy::Command => asked + " Is git installed ?"@,
    }
}

/// The verdict on a head commit: accepted when it is complete, else refused
/// with the diagnostic.
pub open spec fn checked(h: GitHeadView, strategy: Strategy) -> Result<(), ErrorView> {
    if complete(h) {
        Ok(())
    } else {
        Err(ErrorView::Vcs(incomplete_text(strategy)))
    }
}

/// The diagnostic for a head commit that lacks a value. It asks after the git
/// tool only where the lookup ran it.
pub fn error_message(strategy: Strategy) -> (out: String)
    ensures
        out@ == incomplete_text(strategy),
{
    let mut out = "Failed collecting git data. ".to_owned();
    out.append("Did you use command line arguments ? ");
    out.append("Are you running coveralls inside a git repository ?");
    match strategy {
        Strategy::Library => {},
        Strategy::Command => {
            out.append(" Is git installed ?");
        },
    }
    out
}

impl GitHead {
    /// A head commit of which nothing is known.
    pub fn new() -> (head: GitHead)
        ensures
            head@ == blank_head(),
    {
        GitHead {
            id: String::new(),
            author_name: String::new(),
            author_email: String::new(),
            committer_name: String::new(),
            committer_email: String::new(),
            message: String::new(),
        }
    }

    /// Takes in the values that the configuration gives for the commit.
    pub fn fetch_from_config(&mut self, config: &Config)
        ensures
            final(self)@ == head_from_config(old(self)@, config@),
    {
        replace_text(&mut self.id, &config.git_id);
        replace_text(&mut self.author_name, &config.git_author_name);
        replace_text(&mut self.author_email, &config.git_author_email);
        replace_text(&mut self.committer_name, &config.git_committer_name);
        replace_text(&mut self.committer_email, &config.git_committer_email);
        replace_text(&mut self.message, &config.git_message);
    }

    /// Takes in the values that a lookup found.
    pub fn fetch_from_git(&mut self, git_fetcher: &GitFetcher)
        ensures
            final(self)@ == head_from_git(old(self)@, *git_fetcher),
    {
        replace_text(&mut self.id, &git_fetcher.id);
        replace_text(&mut self.author_name, &git_fetcher.author_name);
        replace_text(&mut self.author_email, &git_fetcher.author_email);
        replace_text(&mut self.committer_name, &git_fetcher.committer_name);
        replace_text(&mut self.committer_email, &git_fetcher.committer_email);
        replace_text(&mut self.message, &git_fetcher.message);
    }

    /// Accepts the head commit if each of its six values is there, and fails
    /// if one is empty, whatever the others hold.
    pub fn check(&self, strategy: Strategy) -> (res: Result<(), Error>)
        ensures
            viewed(res) == checked(self@, strategy),
    {
        if self.id.as_str().is_empty() || self.author_name.as_str().is_empty()
            || self.author_email.as_str().is_empty() || self.committer_name.as_str().is_empty()
            || self.committer_email.as_str().is_empty() || self.message.as_str().is_empty() {
            Err(Error::Vcs(error_message(strategy)))
        } else {
            Ok(())
        }
    }
}

} // verus!
