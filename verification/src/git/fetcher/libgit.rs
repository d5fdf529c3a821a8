//! Looking the repository up through the git library: what the values read
//! from it say.

use vstd::prelude::*;
use crate::error::{Error, ErrorView};
use crate::pattern::{capture_first, first_group};

verus! {

/// The head of a repository as the git library shows it.
#[derive(Debug, Clone, PartialEq, Eq)]
pub struct HeadRef {
    /// The id of the commit that the head points to, if it points to one.
    pub target: Option<String>,
    /// Whether the head is a branch.
    pub is_branch: bool,
    /// The full name of the ref, if it is valid text.
    pub name: Option<String>,
}

/// The commit and the branch that a head stands for.
#[derive(Debug, Clone, PartialEq, Eq)]
pub struct BranchInfos {
    /// The id of the head commit.
    pub head_id: String,
    /// The full name of the ref, where the head is a branch.
    pub branch_name: Option<String>,
}

/// The diagnostic for a head that points to no commit.
pub open spec fn unborn_text(is_branch: bool, name: Option<Seq<char>>) -> Seq<char> {
    let branch = "The head of this repository is a branch that has no ID"@;
    if is_branch {
        match name {
            None => branch,
            Some(name) => branch + " (name: "@ + name + ")"@,
        }
    } else {
        "The head of this repository is not a branch and has no ID"@
    }
}

/// The expression that the full name of a branch matches; its group is the
/// short name.
pub open spec fn branch_name_pattern() -> Seq<char> {
    "^refs/heads/(.+)$"@
}

/// The short name of the branch whose full name is `name`.
pub open spec fn branch_in(name: Option<Seq<char>>) -> Option<Seq<char>> {
    match name {
        Some(name) => first_group(branch_name_pattern(), name),
        None => None,
    }
}

/// Those of `found` that have a URL, in order.
pub open spec fn with_url(found: Seq<(Seq<char>, Option<Seq<char>>)>) -> Seq<
    (Seq<char>, Seq<char>),
>
    decreases found.len(),
{
    if found.len() == 0 {
        Seq::empty()
    } else {
        match found.last().1 {
            Some(url) => with_url(found.drop_last()).push((found.last().0, url)),
            None => with_url(found.drop_last()),
        }
    }
}

/// The remotes among `found`, or nothing when none has a URL.
pub open spec fn remotes_of(found: Seq<(Seq<char>, Option<Seq<char>>)>) -> Option<
    Seq<(Seq<char>, Seq<char>)>,
> {
    if with_url(found).len() == 0 {
        None
    } else {
        Some(with_url(found))
    }
}

impl BranchInfos {
    /// The commit and the branch that `head` stands for. Fails where the head
    /// points to no commit.
    pub fn from_repo(head: &HeadRef) -> (res: Result<BranchInfos, Error>)
        ensures
            match head.target {
                Some(id) => res matches Ok(infos) && infos.head_id@ == id@
                    && infos.branch_name.deep_view() == (if head.is_branch {
                    head.name.deep_view()
                } else {
                    None
                }),
                None => res matches Err(e) && e@ == ErrorView::Vcs(
                    unborn_text(head.is_branch, head.name.deep_view()),
                ),
            },
    {
        let head_id = match &head.target {
            Some(id) => id.clone(),
            None => {
                let msg = if head.is_branch {
                    let mut msg =
                        "The head of this repository is a branch that has no ID".to_owned();
                    if let Some(name) = &head.name {
                        msg.append(" (name: ");
                        msg.append(name.as_str());
                        msg.append(")");
                    }
                    msg
                } else {
                    "The head of this repository is not a branch and has no ID".to_owned()
                };
                return Err(Error::Vcs(msg));
            },
        };
        let branch_name = if head.is_branch {
            match &head.name {
                Some(name) => Some(name.clone()),
                None => None,
            }
        } else {
            None
        };
        Ok(BranchInfos { head_id, branch_name })
    }

    /// The short name of the branch, where the head is one.
    pub fn get_branch(&self) -> (res: Option<String>)
        ensures
            res.deep_view() == branch_in(self.branch_name.deep_view()),
    {
        if let Some(name) = &self.branch_name {
            if let Some(branch) = capture_first("^refs/heads/(.+)$", name.as_str()) {
                return Some(branch);
            }
        }
        None
    }
}

/// The remotes among `found`, each a name with the URL that the repository
/// holds for it, if it holds one.
pub fn remotes_with_url(found: &Vec<(String, Option<String>)>) -> (res: Option<
    Vec<(String, String)>,
>)
    ensures
        res.deep_view() == remotes_of(found.deep_view()),
{
    let mut out: Vec<(String, String)> = Vec::new();
    let mut i: usize = 0;
    assert(out.deep_view() =~= Seq::<(Seq<char>, Seq<char>)>::empty());
    assert(found.deep_view().take(0) =~= Seq::<(Seq<char>, Option<Seq<char>>)>::empty());
    while i < found.len()
        invariant
            i <= found.len(),
            out.deep_view() == with_url(found.deep_view().take(i as int)),
        decreases found.len() - i,
    {
        let ghost before = out.deep_view();
        assert(found.deep_view().take(i + 1).drop_last() =~= found.deep_view().take(i as int));
        assert(found.deep_view().take(i + 1).last() == found[i as int].deep_view());
        if let Some(url) = &found[i].1 {
            let pair = (found[i].0.clone(), url.clone());
            out.push(pair);
            assert(out.deep_view() =~= before.push((found[i as int].0@, url@)));
        }
        i += 1;
    }
    assert(found.deep_view().take(i as int) =~= found.deep_view());
    if out.len() == 0 {
        None
    } else {
        Some(out)
    }
}

} // verus!
