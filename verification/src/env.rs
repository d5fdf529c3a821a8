//! The environment as the library sees it: names bound to values, handed in by
//! the caller and never read from the process.

use vstd::prelude::*;
use crate::error::{Error, ErrorView};
use crate::pattern::{capture_first, first_group};
use crate::text::{first_segment, first_segment_of, same_text};

verus! {

/// What a variable holds.
#[derive(Debug, Clone, PartialEq, Eq)]
pub enum Value {
    /// Unicode text.
    Text(String),
    /// Something that is no Unicode text; carries the value as it prints.
    Opaque(String),
}

/// A [`Value`] with its text as a sequence of characters.
pub enum ValueView {
    Text(Seq<char>),
    Opaque(Seq<char>),
}

impl View for Value {
    type V = ValueView;

    open spec fn view(&self) -> ValueView {
        match self {
            Value::Text(text) => ValueView::Text(text@),
            Value::Opaque(shown) => ValueView::Opaque(shown@),
        }
    }
}

struct Binding {
    name: String,
    value: Value,
}

/// A set of environment variables. A later binding of a name replaces an
/// earlier one.
pub struct Env {
    bindings: Vec<Binding>,
}

/// What the bindings bind, each one over those before it.
spec fn bound(bindings: Seq<Binding>) -> Map<Seq<char>, ValueView>
    decreases bindings.len(),
{
    if bindings.len() == 0 {
        Map::empty()
    } else {
        bound(bindings.drop_last()).insert(bindings.last().name@, bindings.last().value@)
    }
}

/// A name that no binding holds is not bound.
proof fn lemma_bound_absent(bindings: Seq<Binding>, name: Seq<char>)
    requires
        forall|k: int| 0 <= k < bindings.len() ==> bindings[k].name@ != name,
    ensures
        !bound(bindings).contains_key(name),
    decreases bindings.len(),
{
    if bindings.len() > 0 {
        lemma_bound_absent(bindings.drop_last(), name);
    }
}

/// A name is bound to the value of the last binding that holds it.
proof fn lemma_bound_last(bindings: Seq<Binding>, name: Seq<char>, at: int)
    requires
        0 <= at < bindings.len(),
        bindings[at].name@ == name,
        forall|k: int| at < k < bindings.len() ==> bindings[k].name@ != name,
    ensures
        bound(bindings).contains_key(name),
        bound(bindings)[name] == bindings[at].value@,
    decreases bindings.len(),
{
    if at < bindings.len() - 1 {
        lemma_bound_last(bindings.drop_last(), name, at);
    }
}

/// What reading `name` from `env` gives: nothing when the name is unbound or
/// bound to the empty text, the text when it is bound to one, and a failure
/// when it is bound to what is no Unicode text.
pub open spec fn var_of(env: Map<Seq<char>, ValueView>, name: Seq<char>) -> Result<
    Option<Seq<char>>,
    ErrorView,
> {
    if env.contains_key(name) {
        match env[name] {
            ValueView::Text(text) => Ok(
                if text.len() == 0 {
                    None
                } else {
                    Some(text)
                },
            ),
            ValueView::Opaque(shown) => Err(ErrorView::Variable(shown)),
        }
    } else {
        Ok(None)
    }
}

/// The text that reading `name` from `env` gives, if any.
pub open spec fn text_of(env: Map<Seq<char>, ValueView>, name: Seq<char>) -> Option<Seq<char>> {
    match var_of(env, name) {
        Ok(found) => found,
        Err(_) => None,
    }
}

/// An optional text, or the failure to read it, over sequences of characters.
pub open spec fn outcome(res: Result<Option<String>, Error>) -> Result<
    Option<Seq<char>>,
    ErrorView,
> {
    match res {
        Ok(found) => Ok(found.deep_view()),
        Err(e) => Err(e@),
    }
}

/// The expression that a ref naming a branch or a tag matches; its group is
/// the name.
pub open spec fn branch_ref() -> Seq<char> {
    "^refs/(?:heads|tags)/(.+)$"@
}

/// The expression that a ref naming a pull request matches; its group is what
/// follows `refs/pull/`.
pub open spec fn pull_ref() -> Seq<char> {
    "^refs/pull/(.+)$"@
}

/// The pull request that a capture of [`pull_ref`] names: what precedes its
/// first `/`, unless that is empty.
pub open spec fn pull_request_in(capture: Seq<char>) -> Option<Seq<char>> {
    if first_segment_of(capture).len() == 0 {
        None
    } else {
        Some(first_segment_of(capture))
    }
}

/// The branch that the variables of GitHub Actions name: the group of
/// [`branch_ref`] in `GITHUB_REF` when that matches, else `GITHUB_HEAD_REF`.
pub open spec fn github_branch_of(env: Map<Seq<char>, ValueView>) -> Result<
    Option<Seq<char>>,
    ErrorView,
> {
    match var_of(env, "GITHUB_REF"@) {
        Err(e) => Err(e),
        Ok(Some(github_ref)) => if first_group(branch_ref(), github_ref) is Some {
            Ok(first_group(branch_ref(), github_ref))
        } else {
            var_of(env, "GITHUB_HEAD_REF"@)
        },
        Ok(None) => var_of(env, "GITHUB_HEAD_REF"@),
    }
}

/// The pull request that the variables of GitHub Actions name: the one in the
/// group of [`pull_ref`] in `GITHUB_REF`, when that matches.
pub open spec fn github_pull_request_of(env: Map<Seq<char>, ValueView>) -> Result<
    Option<Seq<char>>,
    ErrorView,
> {
    match var_of(env, "GITHUB_REF"@) {
        Err(e) => Err(e),
        Ok(Some(github_ref)) => match first_group(pull_ref(), github_ref) {
            Some(capture) => Ok(pull_request_in(capture)),
            None => Ok(None),
        },
        Ok(None) => Ok(None),
    }
}

/// The pull request that a capture of [`pull_ref`] names.
pub fn pull_request_from(capture: &str) -> (res: Option<String>)
    ensures
        res.deep_view() == pull_request_in(capture@),
{
    let number = first_segment(capture);
    if number.as_str().is_empty() {
        None
    } else {
        Some(number)
    }
}

impl View for Env {
    type V = Map<Seq<char>, ValueView>;

    closed spec fn view(&self) -> Map<Seq<char>, ValueView> {
        bound(self.bindings@)
    }
}

impl Env {
    /// An environment without variables.
    pub fn new() -> (env: Env)
        ensures
            env@ == Map::<Seq<char>, ValueView>::empty(),
    {
        Env { bindings: Vec::new() }
    }

    /// Binds `name` to `value`.
    pub fn bind(&mut self, name: &str, value: Value)
        ensures
            final(self)@ == old(self)@.insert(name@, value@),
    {
        let ghost before = self.bindings@;
        self.bindings.push(Binding { name: name.to_owned(), value });
        assert(self.bindings@.drop_last() =~= before);
    }

    /// Binds `name` to the text `value`.
    pub fn set_var(&mut self, name: &str, value: &str)
        ensures
            final(self)@ == old(self)@.insert(name@, ValueView::Text(value@)),
    {
        self.bind(name, Value::Text(value.to_owned()));
    }

    /// The text bound to `name`: nothing when the name is unbound or bound to
    /// the empty text, a failure when it is bound to what is no Unicode text.
    pub fn get_var(&self, name: &str) -> (res: Result<Option<String>, Error>)
        ensures
            outcome(res) == var_of(self@, name@),
    {
        let mut i: usize = self.bindings.len();
        while i > 0
            invariant
                i <= self.bindings.len(),
                forall|k: int| i <= k < self.bindings.len() ==> self.bindings@[k].name@ != name@,
            decreases i,
        {
            i -= 1;
            if same_text(self.bindings[i].name.as_str(), name) {
                proof {
                    lemma_bound_last(self.bindings@, name@, i as int);
                }
                return match &self.bindings[i].value {
                    Value::Text(text) => Ok(
                        if text.as_str().is_empty() {
                            None
                        } else {
                            Some(text.clone())
                        },
                    ),
                    Value::Opaque(shown) => Err(Error::Variable(shown.clone())),
                };
            }
        }
        proof {
            lemma_bound_absent(self.bindings@, name@);
        }
        Ok(None)
    }

    /// The branch that the variables of GitHub Actions name.
    pub fn get_github_actions_branch(&self) -> (res: Result<Option<String>, Error>)
        ensures
            outcome(res) == github_branch_of(self@),
    {
        if let Some(github_ref) = self.get_var("GITHUB_REF")? {
            if let Some(branch) = capture_first(
                "^refs/(?:heads|tags)/(.+)$",
                github_ref.as_str(),
            ) {
                return Ok(Some(branch));
            }
        }
        self.get_var("GITHUB_HEAD_REF")
    }

    /// The pull request that the variables of GitHub Actions name.
    pub fn get_github_actions_pull_request(&self) -> (res: Result<Option<String>, Error>)
        ensures
            outcome(res) == github_pull_request_of(self@),
    {
        if let Some(github_ref) = self.get_var("GITHUB_REF")? {
            if let Some(capture) = capture_first("^refs/pull/(.+)$", github_ref.as_str()) {
                return Ok(pull_request_from(capture.as_str()));
            }
        }
        Ok(None)
    }
}

} // verus!
