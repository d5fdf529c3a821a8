//! What a lookup of the repository gave. The lookup itself, through the git
//! library or the git tool, is the caller's business; each of the two has a
//! module here with the decisions that belong to it.

pub mod cmdgit;
pub mod libgit;

use vstd::prelude::*;
use crate::text::copy_pairs;

verus! {

/// One value of the head commit.
#[derive(Copy, Clone, Debug, PartialEq, Eq, Structural)]
pub enum LogValueKind {
    Id,
    AuthorName,
    AuthorEmail,
    CommitterName,
    CommitterEmail,
    Message,
}

/// The way in which the repository is looked up.
#[derive(Copy, Clone, Debug, PartialEq, Eq, Structural)]
pub enum Strategy {
    /// Through the git library.
    Library,
    /// By running the git tool.
    Command,
}

impl LogValueKind {
    /// The placeholder that stands for the value in a format of `git log`.
    pub open spec fn format_text(self) -> Seq<char> {
        match self {
            LogValueKind::Id => "H"@,
            LogValueKind::AuthorName => "aN"@,
            LogValueKind::AuthorEmail => "ae"@,
            LogValueKind::CommitterName => "cN"@,
            LogValueKind::CommitterEmail => "ce"@,
            LogValueKind::Message => "s"@,
        }
    }

    /// The placeholder that stands for the value in a format of `git log`.
    pub fn to_format_str(&self) -> (res: &'static str)
        ensures
            res@ == self.format_text(),
    {
        match self {
            LogValueKind::Id => "H",
            LogValueKind::AuthorName => "aN",
            LogValueKind::AuthorEmail => "ae",
            LogValueKind::CommitterName => "cN",
            LogValueKind::CommitterEmail => "ce",
            LogValueKind::Message => "s",
        }
    }
}

/// The answers of one lookup that went through. A value that is `None` was
/// not found, or was blank.
#[derive(Debug, Clone, PartialEq, Eq)]
pub struct GitFetcher {
    pub strategy: Strategy,
    pub id: Option<String>,
    pub author_name: Option<String>,
    pub author_email: Option<String>,
    pub committer_name: Option<String>,
    pub committer_email: Option<String>,
    pub message: Option<String>,
    pub branch: Option<String>,
    pub remotes: Option<Vec<(String, String)>>,
}

impl GitFetcher {
    /// The value of kind `kind`.
    pub open spec fn log(self, kind: LogValueKind) -> Option<Seq<char>> {
        match kind {
            LogValueKind::Id => self.id.deep_view(),
            LogValueKind::AuthorName => self.author_name.deep_view(),
            LogValueKind::AuthorEmail => self.author_email.deep_view(),
            LogValueKind::CommitterName => self.committer_name.deep_view(),
            LogValueKind::CommitterEmail => self.committer_email.deep_view(),
            LogValueKind::Message => self.message.deep_view(),
        }
    }

    /// A lookup that found nothing.
    pub fn new(strategy: Strategy) -> (res: GitFetcher)
        ensures
            res.strategy == strategy,
            forall|kind: LogValueKind| res.log(kind) is None,
            res.branch is None,
            res.remotes is None,
    {
        GitFetcher {
            strategy,
            id: None,
            author_name: None,
            author_email: None,
            committer_name: None,
            committer_email: None,
            message: None,
            branch: None,
            remotes: None,
        }
    }

    /// The branch that is checked out.
    pub fn get_branch(&self) -> (res: Option<String>)
        ensures
            res.deep_view() == self.branch.deep_view(),
    {
        copy_text(&self.branch)
    }

    /// One value of the head commit.
    pub fn get_log(&self, kind: LogValueKind) -> (res: Option<String>)
        ensures
            res.deep_view() == self.log(kind),
    {
        match kind {
            LogValueKind::Id => copy_text(&self.id),
            LogValueKind::AuthorName => copy_text(&self.author_name),
            LogValueKind::AuthorEmail => copy_text(&self.author_email),
            LogValueKind::CommitterName => copy_text(&self.committer_name),
            LogValueKind::CommitterEmail => copy_text(&self.committer_email),
            LogValueKind::Message => copy_text(&self.message),
        }
    }

    /// The remotes, each with its name and its URL.
    pub fn get_remotes(&self) -> (res: Option<Vec<(String, String)>>)
        ensures
            res.deep_view() == self.remotes.deep_view(),
    {
        match &self.remotes {
            Some(list) => Some(copy_pairs(list)),
            None => None,
        }
    }
}

/// A copy of an optional text.
pub fn copy_text(text: &Option<String>) -> (res: Option<String>)
    ensures
        res.deep_view() == text.deep_view(),
{
    match text {
        Some(value) => Some(value.clone()),
        None => None,
    }
}

} // verus!
