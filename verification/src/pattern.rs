//! Matching text against a regular expression.

use vstd::prelude::*;

verus! {

/// What the first capture group of the regular expression `pattern` holds
/// after the first match in `text`: `None` when `pattern` is no valid
/// expression, when `text` has no match, or when there is no such group or it
/// took no part in the match.
pub uninterp spec fn first_group(pattern: Seq<char>, text: Seq<char>) -> Option<Seq<char>>;

/// Compiles `pattern` with `regex::Regex::new`, searches `text` with
/// `Regex::captures` and reads group 1 with `Captures::get`. Trusted: the
/// result is the one that [`first_group`] names, a function of the two texts
/// alone. Nothing is claimed of what a given pattern matches.
#[verifier::external_body]
pub(crate) fn capture_first(pattern: &str, text: &str) -> (res: Option<String>)
    ensures
        res.deep_view() == first_group(pattern@, text@),
{
    match regex::Regex::new(pattern) {
        Ok(re) => re.captures(text).and_then(|c| c.get(1)).map(|m| m.as_str().to_string()),
        Err(_) => None,
    }
}

} // verus!
