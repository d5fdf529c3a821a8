//! The configuration as it is shown to the user before the payload is fitted.

use vstd::prelude::*;
use crate::config::{Config, ConfigView};
use crate::git::infos::{GitInfos, GitInfosView};
use crate::helpers::{canonical, join, joined, path_to_string};

verus! {

/// The text that is shown for a value: the one that is configured, else the
/// one that the repository gave, else nothing.
pub open spec fn shown(configured: Option<Seq<char>>, known: Option<Seq<char>>) -> Seq<char> {
    match configured {
        Some(value) => value,
        None => match known {
            Some(value) => value,
            None => Seq::empty(),
        },
    }
}

/// A label with a value between square brackets.
pub open spec fn entry(label: Seq<char>, value: Seq<char>) -> Seq<char> {
    label + "["@ + value + "]"@
}

/// The canonical forms of `paths`.
pub open spec fn canonical_all(paths: Seq<Seq<char>>) -> Seq<Seq<char>> {
    paths.map_values(|path: Seq<char>| canonical(path))
}

/// The lines that show the run parameters.
pub open spec fn parameter_lines(c: ConfigView) -> Seq<Seq<char>> {
    seq![
        "Parameters:"@,
        "Prune absolute paths:  "@ + (if c.param_prune_absolutes {
            "true"@
        } else {
            "false"@
        }),
        entry("Prune directories: ... "@, joined(canonical_all(c.param_prune_dirs), ", "@)),
        entry(
            "Source prefix: ....... "@,
            match c.param_src_prefix {
                Some(prefix) => canonical(prefix),
                None => Seq::empty(),
            },
        ),
        Seq::empty(),
    ]
}

/// The lines that show the service and its build.
pub open spec fn service_lines(c: ConfigView) -> Seq<Seq<char>> {
    seq![
        "Configuration:"@,
        "Service name: ........ "@ + c.service.name_text(),
        entry("Repo token: .......... "@, shown(c.repo_token, None)),
        entry("Repo name: ........... "@, shown(c.service_repo_name, None)),
        entry("Flag name: ........... "@, shown(c.flag_name, None)),
        entry("Service build ID: .... "@, shown(c.service_build_id, None)),
        entry("Service build number:  "@, shown(c.service_build_number, None)),
        entry("Service build version: "@, shown(c.service_build_version, None)),
        entry("Service build URL: ... "@, shown(c.service_build_url, None)),
        entry("Service pull request:  "@, shown(c.service_pull_request, None)),
        entry("Service job ID: ...... "@, shown(c.service_job_id, None)),
        entry("Service job name: .... "@, shown(c.service_job_name, None)),
        entry("Service job number: .. "@, shown(c.service_job_number, None)),
    ]
}

/// The values of a record of the repository, for showing: those of the head
/// commit, the branch, and the name and URL of the first remote.
pub struct Known {
    pub id: Option<Seq<char>>,
    pub branch: Option<Seq<char>>,
    pub author_name: Option<Seq<char>>,
    pub author_email: Option<Seq<char>>,
    pub committer_name: Option<Seq<char>>,
    pub committer_email: Option<Seq<char>>,
    pub remote_name: Option<Seq<char>>,
    pub remote_url: Option<Seq<char>>,
    pub message: Option<Seq<char>>,
}

/// What a record of the repository, if there is one, gives for showing.
pub open spec fn known_of(git: Option<GitInfosView>) -> Known {
    match git {
        Some(g) => Known {
            id: Some(g.head.id),
            branch: Some(g.branch),
            author_name: Some(g.head.author_name),
            author_email: Some(g.head.author_email),
            committer_name: Some(g.head.committer_name),
            committer_email: Some(g.head.committer_email),
            remote_name: if g.remotes.len() > 0 {
                Some(g.remotes[0].name)
            } else {
                None
            },
            remote_url: if g.remotes.len() > 0 {
                Some(g.remotes[0].url)
            } else {
                None
            },
            message: Some(g.head.message),
        },
        None => Known {
            id: None,
            branch: None,
            author_name: None,
            author_email: None,
            committer_name: None,
            committer_email: None,
            remote_name: None,
            remote_url: None,
            message: None,
        },
    }
}

/// The lines that show the commit, the branch and the remote. The tag is
/// shown as configured: the repository is not asked for one.
pub open spec fn git_lines(c: ConfigView, k: Known) -> Seq<Seq<char>> {
    seq![
        entry("Git ID: .............. "@, shown(c.git_id, k.id)),
        entry("Git branch: .......... "@, shown(c.git_branch, k.branch)),
        entry("Git tag: ............. "@, shown(c.git_tag, None)),
        entry("Git author name: ..... "@, shown(c.git_author_name, k.author_name)),
        entry("Git author email: .... "@, shown(c.git_author_email, k.author_email)),
        entry("Git committer name: .. "@, shown(c.git_committer_name, k.committer_name)),
        entry("Git committer email: . "@, shown(c.git_committer_email, k.committer_email)),
        entry("Git remote name: ..... "@, shown(c.git_remote_name, k.remote_name)),
        entry("Git remote URL: ...... "@, shown(c.git_remote_url, k.remote_url)),
        entry("Git message: ......... "@, shown(c.git_message, k.message)),
        Seq::empty(),
    ]
}

/// The lines that show a configuration, beside what is known of the
/// repository.
pub open spec fn shown_lines(c: ConfigView, git: Option<GitInfosView>) -> Seq<Seq<char>> {
    parameter_lines(c) + service_lines(c) + git_lines(c, known_of(git))
}

/// A label with the value that is shown for it, between square brackets.
fn show_entry(label: &str, configured: &Option<String>, known: Option<&String>) -> (out: String)
    ensures
        out@ == entry(
            label@,
            shown(
                configured.deep_view(),
                match known {
                    Some(value) => Some(value@),
                    None => None,
                },
            ),
        ),
{
    let mut out = label.to_owned();
    out.append("[");
    match configured {
        Some(value) => {
            out.append(value.as_str());
        },
        None => match known {
            Some(value) => {
                out.append(value.as_str());
            },
            None => {
                assert(out@ + Seq::<char>::empty() =~= out@);
            },
        },
    }
    out.append("]");
    out
}

/// A label with a text between square brackets.
fn show_text(label: &str, value: &str) -> (out: String)
    ensures
        out@ == entry(label@, value@),
{
    let mut out = label.to_owned();
    out.append("[");
    out.append(value);
    out.append("]");
    out
}

impl Config {
    fn show_parameters(&self) -> (out: Vec<String>)
        ensures
            out.deep_view() == parameter_lines(self@),
    {
        let mut dirs: Vec<String> = Vec::new();
        let mut i: usize = 0;
        while i < self.param_prune_dirs.len()
            invariant
                i <= self.param_prune_dirs.len(),
                dirs.len() == i,
                forall|k: int| 0 <= k < i ==> dirs@[k]@ == canonical(self.param_prune_dirs@[k]@),
            decreases self.param_prune_dirs.len() - i,
        {
            dirs.push(path_to_string(self.param_prune_dirs[i].as_str()));
            i += 1;
        }
        assert(dirs.deep_view() =~= canonical_all(self@.param_prune_dirs));
        let prefix = match &self.param_src_prefix {
            Some(prefix) => path_to_string(prefix.as_str()),
            None => String::new(),
        };
        let mut absolutes = "Prune absolute paths:  ".to_owned();
        if self.param_prune_absolutes {
            absolutes.append("true");
        } else {
            absolutes.append("false");
        }
        let mut out: Vec<String> = Vec::new();
        out.push("Parameters:".to_owned());
        out.push(absolutes);
        out.push(show_text("Prune directories: ... ", join(&dirs, ", ").as_str()));
        out.push(show_text("Source prefix: ....... ", prefix.as_str()));
        out.push(String::new());
        assert(out.deep_view() =~= parameter_lines(self@));
        out
    }

    fn show_service(&self) -> (out: Vec<String>)
        ensures
            out.deep_view() == service_lines(self@),
    {
        let mut name = "Service name: ........ ".to_owned();
        name.append(self.service.get_name());
        let mut out: Vec<String> = Vec::new();
        out.push("Configuration:".to_owned());
        out.push(name);
        out.push(show_entry("Repo token: .......... ", &self.repo_token, None));
        out.push(show_entry("Repo name: ........... ", &self.service_repo_name, None));
        out.push(show_entry("Flag name: ........... ", &self.flag_name, None));
        out.push(show_entry("Service build ID: .... ", &self.service_build_id, None));
        out.push(show_entry("Service build number:  ", &self.service_build_number, None));
        out.push(show_entry("Service build version: ", &self.service_build_version, None));
        out.push(show_entry("Service build URL: ... ", &self.service_build_url, None));
        out.push(show_entry("Service pull request:  ", &self.service_pull_request, None));
        out.push(show_entry("Service job ID: ...... ", &self.service_job_id, None));
        out.push(show_entry("Service job name: .... ", &self.service_job_name, None));
        out.push(show_entry("Service job number: .. ", &self.service_job_number, None));
        assert(out.deep_view() =~= service_lines(self@));
        out
    }

    fn show_git(&self, git: Option<&GitInfos>) -> (out: Vec<String>)
        ensures
            out.deep_view() == git_lines(
                self@,
                known_of(
                    match git {
                        Some(infos) => Some(infos@),
                        None => None,
                    },
                ),
            ),
    {
        let ghost k = known_of(
            match git {
                Some(infos) => Some(infos@),
                None => None,
            },
        );
        let (id, branch, author_name, author_email) = match git {
            Some(g) => (
                Some(&g.head.id),
                Some(&g.branch),
                Some(&g.head.author_name),
                Some(&g.head.author_email),
            ),
            None => (None, None, None, None),
        };
        let (committer_name, committer_email, message) = match git {
            Some(g) => (
                Some(&g.head.committer_name),
                Some(&g.head.committer_email),
                Some(&g.head.message),
            ),
            None => (None, None, None),
        };
        let (remote_name, remote_url) = match git {
            Some(g) => if g.remotes.len() > 0 {
                assert(g@.remotes[0] == g.remotes@[0].deep_view());
                (Some(&g.remotes[0].name), Some(&g.remotes[0].url))
            } else {
                (None, None)
            },
            None => (None, None),
        };
        let mut out: Vec<String> = Vec::new();
        out.push(show_entry("Git ID: .............. ", &self.git_id, id));
        out.push(show_entry("Git branch: .......... ", &self.git_branch, branch));
        out.push(show_entry("Git tag: ............. ", &self.git_tag, None));
        out.push(show_entry("Git author name: ..... ", &self.git_author_name, author_name));
        out.push(show_entry("Git author email: .... ", &self.git_author_email, author_email));
        out.push(show_entry("Git committer name: .. ", &self.git_committer_name, committer_name));
        out.push(show_entry("Git committer email: . ", &self.git_committer_email, committer_email));
        out.push(show_entry("Git remote name: ..... ", &self.git_remote_name, remote_name));
        out.push(show_entry("Git remote URL: ...... ", &self.git_remote_url, remote_url));
        out.push(show_entry("Git message: ......... ", &self.git_message, message));
        out.push(String::new());
        assert(out.deep_view() =~= git_lines(self@, k));
        out
    }

    /// The lines that show this configuration, beside what is known of the
    /// repository. A value that is not configured is shown as the repository
    /// gave it.
    pub fn show(&self, git: Option<&GitInfos>) -> (out: Vec<String>)
        ensures
            out.deep_view() == shown_lines(
                self@,
                match git {
                    Some(infos) => Some(infos@),
                    None => None,
                },
            ),
    {
        let mut out = self.show_parameters();
        let mut service = self.show_service();
        let mut repository = self.show_git(git);
        let ghost first = out.deep_view();
        let ghost second = service.deep_view();
        let ghost third = repository.deep_view();
        out.append(&mut service);
        assert(out.deep_view() =~= first + second);
        out.append(&mut repository);
        assert(out.deep_view() =~= first + second + third);
        out
    }
}

} // verus!
