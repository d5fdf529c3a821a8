//! What is reported of the repository as a whole.

use vstd::prelude::*;
use crate::config::{Config, ConfigView};
use crate::error::{viewed, Error};
use crate::git::fetcher::GitFetcher;
use crate::git::head::{
    blank_head, checked, head_from_config, head_from_git, or_text, replace_text, GitHead,
    GitHeadView,
};
use crate::git::remote::{
    distinct_names, fetched_list, found_list, lemma_fetched_list_distinct, lemma_merged_distinct,
    lemma_remotes_settle,
    remotes_from_config, GitRemote, GitRemoteView,
};

verus! {

/// The head commit, the branch and the remotes.
#[derive(Debug, Clone, PartialEq, Eq)]
pub struct GitInfos {
    pub head: GitHead,
    /// The branch that is checked out; empty where none is.
    pub branch: String,
    pub remotes: Vec<GitRemote>,
}

/// A [`GitInfos`] with its texts as sequences of characters.
pub struct GitInfosView {
    pub head: GitHeadView,
    pub branch: Seq<char>,
    pub remotes: Seq<GitRemoteView>,
}

impl View for GitInfos {
    type V = GitInfosView;

    open spec fn view(&self) -> GitInfosView {
        GitInfosView {
            head: self.head@,
            branch: self.branch@,
            remotes: self.remotes.deep_view(),
        }
    }
}

/// Nothing known of the repository.
pub open spec fn blank() -> GitInfosView {
    GitInfosView { head: blank_head(), branch: Seq::empty(), remotes: Seq::empty() }
}

/// `g` after a lookup: each value that was found replaces the one held, and
/// the remotes are listed anew.
pub open spec fn infos_from_git(g: GitInfosView, f: GitFetcher) -> GitInfosView {
    GitInfosView {
        head: head_from_git(g.head, f),
        branch: or_text(f.branch.deep_view(), g.branch),
        remotes: fetched_list(f.remotes.deep_view(), g.remotes),
    }
}

/// `g` after the configuration has had its say: each value that it gives
/// replaces the one held.
pub open spec fn infos_from_config(g: GitInfosView, c: ConfigView) -> GitInfosView {
    GitInfosView {
        head: head_from_config(g.head, c),
        branch: or_text(c.git_branch, g.branch),
        remotes: remotes_from_config(g.remotes, c),
    }
}

/// `g` brought up to date: first the lookup, then the configuration over it.
pub open spec fn updated(g: GitInfosView, f: GitFetcher, c: ConfigView) -> GitInfosView {
    infos_from_config(infos_from_git(g, f), c)
}

impl GitInfos {
    /// Nothing known of the repository.
    pub fn new() -> (infos: GitInfos)
        ensures
            infos@ == blank(),
    {
        let infos = GitInfos { head: GitHead::new(), branch: String::new(), remotes: Vec::new() };
        assert(infos.remotes.deep_view() =~= Seq::<GitRemoteView>::empty());
        infos
    }

    /// Takes in what the configuration says of the repository.
    pub fn fetch_from_config(&mut self, config: &Config)
        ensures
            final(self)@ == infos_from_config(old(self)@, config@),
    {
        self.head.fetch_from_config(config);
        if let Some(value) = GitRemote::fetch_from_config(config) {
            GitRemote::merge_into(&mut self.remotes, value);
        }
        replace_text(&mut self.branch, &config.git_branch);
    }

    /// Takes in what a lookup found.
    pub fn fetch_from_git(&mut self, git_fetcher: &GitFetcher)
        ensures
            final(self)@ == infos_from_git(old(self)@, *git_fetcher),
    {
        self.head.fetch_from_git(git_fetcher);
        let mut known: Vec<GitRemote> = Vec::new();
        std::mem::swap(&mut known, &mut self.remotes);
        self.remotes = GitRemote::fetch_list(git_fetcher, known);
        replace_text(&mut self.branch, &git_fetcher.branch);
    }

    /// Brings the record up to date, first from the lookup, then from the
    /// configuration, and accepts it if the head commit is complete.
    pub fn update(&mut self, git_fetcher: &GitFetcher, config: &Config) -> (res: Result<
        (),
        Error,
    >)
        ensures
            final(self)@ == updated(old(self)@, *git_fetcher, config@),
            viewed(res) == checked(final(self)@.head, git_fetcher.strategy),
    {
        self.fetch_from_git(git_fetcher);
        self.fetch_from_config(config);
        self.head.check(git_fetcher.strategy)
    }
}

/// Bringing a record up to date never leaves two remotes with one name, as
/// long as the lookup found no name twice.
pub proof fn lemma_update_keeps_names_distinct(g: GitInfosView, f: GitFetcher, c: ConfigView)
    requires
        distinct_names(found_list(f.remotes.deep_view())),
    ensures
        distinct_names(updated(g, f, c).remotes),
{
    lemma_fetched_list_distinct(f.remotes.deep_view(), g.remotes);
    let after = infos_from_git(g, f).remotes;
    match crate::git::remote::remote_in(c) {
        Some(value) => {
            lemma_merged_distinct(after, value);
        },
        None => {},
    }
}

/// Bringing a record up to date twice, from the same lookup and the same
/// configuration, leaves what bringing it up to date once leaves: nothing is
/// added a second time.
pub proof fn lemma_update_settles(g: GitInfosView, f: GitFetcher, c: ConfigView)
    ensures
        updated(updated(g, f, c), f, c) == updated(g, f, c),
{
    lemma_remotes_settle(f.remotes.deep_view(), g.remotes, c);
}

} // verus!
