//! Paths as text separated by `/`: their components, and the three questions
//! that fitting a payload asks of them.

use vstd::prelude::*;
use itertools::Itertools;
use crate::text::{chars_of, find_from, find_in, lemma_find_from_bounds, same_text, slice};

verus! {

/// One part of a path.
#[derive(Debug, Clone, PartialEq, Eq)]
pub enum Component {
    /// A drive or a volume, as some platforms write it before the root. Text
    /// separated by `/` never yields one; a caller that parted a path by other
    /// rules may hand one in.
    Prefix(String),
    /// The root: the `/` that an absolute path begins with.
    RootDir,
    /// `.` at the beginning of a path.
    CurDir,
    /// `..`.
    ParentDir,
    /// Any other name.
    Normal(String),
}

/// A [`Component`] with its text as a sequence of characters.
pub enum ComponentView {
    Prefix(Seq<char>),
    RootDir,
    CurDir,
    ParentDir,
    Normal(Seq<char>),
}

impl DeepView for Component {
    type V = ComponentView;

    open spec fn deep_view(&self) -> ComponentView {
        match self {
            Component::Prefix(text) => ComponentView::Prefix(text@),
            Component::RootDir => ComponentView::RootDir,
            Component::CurDir => ComponentView::CurDir,
            Component::ParentDir => ComponentView::ParentDir,
            Component::Normal(text) => ComponentView::Normal(text@),
        }
    }
}

/// The component that the text between two separators stands for. Nothing
/// stands for an empty text, nor for `.` unless the path begins with it.
pub open spec fn component_of(segment: Seq<char>, leading: bool) -> Option<ComponentView> {
    if segment.len() == 0 {
        None
    } else if segment == seq!['.'] {
        if leading {
            Some(ComponentView::CurDir)
        } else {
            None
        }
    } else if segment == seq!['.', '.'] {
        Some(ComponentView::ParentDir)
    } else {
        Some(ComponentView::Normal(segment))
    }
}

/// The components of what `s` holds from position `from` on, where `from` is
/// the beginning of a segment.
pub open spec fn components_from(s: Seq<char>, from: int) -> Seq<ComponentView>
    decreases s.len() + 1 - from,
{
    if 0 <= from < s.len() {
        let end = find_from(s, '/', from);
        if from <= end <= s.len() {
            match component_of(s.subrange(from, end), from == 0) {
                Some(c) => seq![c] + components_from(s, end + 1),
                None => components_from(s, end + 1),
            }
        } else {
            Seq::empty()
        }
    } else {
        Seq::empty()
    }
}

/// Whether `s` begins at the root.
pub open spec fn absolute(s: Seq<char>) -> bool {
    s.len() > 0 && s[0] == '/'
}

/// The components of the path `s`: the root if it begins with `/`, then one
/// for each segment that stands for one. Repeated separators, a separator at
/// the end and `.` anywhere but at the beginning leave no trace.
pub open spec fn components_of(s: Seq<char>) -> Seq<ComponentView> {
    if absolute(s) {
        seq![ComponentView::RootDir] + components_from(s, 1)
    } else {
        components_from(s, 0)
    }
}

/// Whether the path `s` lies at or below the path `base`: the components of
/// `base` are the first of those of `s`. Whole components are compared, not
/// characters.
pub open spec fn under(s: Seq<char>, base: Seq<char>) -> bool {
    components_of(base).is_prefix_of(components_of(s))
}

/// `path` as seen from `prefix`: `path` itself when it is absolute or
/// `prefix` is empty, else the two with one `/` between them.
pub open spec fn adjoined(prefix: Seq<char>, path: Seq<char>) -> Seq<char> {
    if absolute(path) || prefix.len() == 0 {
        path
    } else if prefix.last() == '/' {
        prefix + path
    } else {
        prefix + seq!['/'] + path
    }
}

/// How a component is written: a prefix not at all, the root as the empty
/// text, the others as they read.
pub open spec fn written(c: ComponentView) -> Option<Seq<char>> {
    match c {
        ComponentView::Prefix(_) => None,
        ComponentView::RootDir => Some(Seq::empty()),
        ComponentView::CurDir => Some(seq!['.']),
        ComponentView::ParentDir => Some(seq!['.', '.']),
        ComponentView::Normal(text) => Some(text),
    }
}

/// The texts of the components that are written, in order.
pub open spec fn written_all(components: Seq<ComponentView>) -> Seq<Seq<char>>
    decreases components.len(),
{
    if components.len() == 0 {
        Seq::empty()
    } else {
        match written(components.last()) {
            Some(text) => written_all(components.drop_last()).push(text),
            None => written_all(components.drop_last()),
        }
    }
}

/// `parts` in a row with `sep` between each two.
pub open spec fn joined(parts: Seq<Seq<char>>, sep: Seq<char>) -> Seq<char>
    decreases parts.len(),
{
    if parts.len() == 0 {
        Seq::empty()
    } else if parts.len() == 1 {
        parts[0]
    } else {
        joined(parts.drop_last(), sep) + sep + parts.last()
    }
}

/// The canonical form of components: those that are written, with `/`
/// between them.
pub open spec fn rendered(components: Seq<ComponentView>) -> Seq<char> {
    joined(written_all(components), seq!['/'])
}

/// The canonical form of the path `s`.
pub open spec fn canonical(s: Seq<char>) -> Seq<char> {
    rendered(components_of(s))
}

/// Whether a text is there and does not begin with `/`.
pub open spec fn begins_inside(text: Seq<char>) -> bool {
    text.len() > 0 && text[0] != '/'
}

/// Texts in a row begin as the first of them begins.
pub proof fn lemma_joined_begins(parts: Seq<Seq<char>>, sep: Seq<char>)
    requires
        parts.len() > 0,
        parts[0].len() > 0,
    ensures
        joined(parts, sep).len() > 0,
        joined(parts, sep)[0] == parts[0][0],
    decreases parts.len(),
{
    if parts.len() > 1 {
        lemma_joined_begins(parts.drop_last(), sep);
    }
}

/// What is written of components that hold no prefix begins with what is
/// written of the first.
pub proof fn lemma_written_all_begins(components: Seq<ComponentView>)
    requires
        components.len() > 0,
        forall|i: int| 0 <= i < components.len() ==> !(#[trigger] components[i] is Prefix),
    ensures
        written_all(components).len() > 0,
        Some(written_all(components)[0]) == written(components[0]),
    decreases components.len(),
{
    if components.len() > 1 {
        assert(!(components.last() is Prefix));
        lemma_written_all_begins(components.drop_last());
    } else {
        assert(!(components[0] is Prefix));
        assert(written_all(components.drop_last()) =~= Seq::<Seq<char>>::empty());
    }
}

/// The components of segments are written with a text that is there and does
/// not begin with `/`, and none of them is a prefix or the root.
pub proof fn lemma_components_from_begin_inside(s: Seq<char>, from: int)
    requires
        0 <= from <= s.len(),
    ensures
        forall|i: int|
            0 <= i < components_from(s, from).len() ==> {
                let c = #[trigger] components_from(s, from)[i];
                !(c is Prefix) && !(c is RootDir) && written(c) is Some && begins_inside(
                    written(c)->0,
                )
            },
    decreases s.len() + 1 - from,
{
    if from < s.len() {
        lemma_find_from_bounds(s, '/', from);
        let end = find_from(s, '/', from);
        let rest = components_from(s, end + 1);
        if end < s.len() {
            lemma_components_from_begin_inside(s, end + 1);
        }
        let segment = s.subrange(from, end);
        match component_of(segment, from == 0) {
            Some(c) => {
                assert(segment[0] == s[from]);
                assert(written(c) is Some && begins_inside(written(c)->0));
                assert forall|i: int| 0 <= i < components_from(s, from).len() implies {
                    let c = #[trigger] components_from(s, from)[i];
                    !(c is Prefix) && !(c is RootDir) && written(c) is Some && begins_inside(
                        written(c)->0,
                    )
                } by {
                    if i > 0 {
                        assert(components_from(s, from)[i] == rest[i - 1]);
                    }
                }
            },
            None => {},
        }
    }
}

/// The canonical form of a path that does not begin at the root does not
/// begin at the root.
pub proof fn lemma_canonical_stays_relative(s: Seq<char>)
    requires
        !absolute(s),
    ensures
        !absolute(canonical(s)),
{
    let components = components_of(s);
    lemma_components_from_begin_inside(s, 0);
    if components.len() > 0 {
        lemma_written_all_begins(components);
        assert(begins_inside(written(components[0])->0));
        lemma_joined_begins(written_all(components), seq!['/']);
    }
}

/// Calls `itertools::Itertools::join` on the texts of `parts`. Trusted: the
/// result is the first text followed, for each further one, by `sep` and that
/// text, and empty where there is none, as the crate documents and its source
/// shows.
#[verifier::external_body]
pub(crate) fn join(parts: &Vec<String>, sep: &str) -> (out: String)
    ensures
        out@ == joined(parts.deep_view(), sep@),
{
    parts.iter().join(sep)
}

/// How a component is written, if it is.
pub fn path_component_as_str(c: &Component) -> (res: Option<String>)
    ensures
        res.deep_view() == written(c.deep_view()),
{
    match c {
        Component::Prefix(_) => None,
        Component::RootDir => Some(String::new()),
        Component::CurDir => {
            proof {
                reveal_strlit(".");
            }
            assert("."@ =~= seq!['.']);
            Some(".".to_owned())
        },
        Component::ParentDir => {
            proof {
                reveal_strlit("..");
            }
            assert(".."@ =~= seq!['.', '.']);
            Some("..".to_owned())
        },
        Component::Normal(text) => Some(text.clone()),
    }
}

/// Whether two components are the same.
pub fn same_component(a: &Component, b: &Component) -> (res: bool)
    ensures
        res == (a.deep_view() == b.deep_view()),
{
    match (a, b) {
        (Component::Prefix(x), Component::Prefix(y)) => same_text(x.as_str(), y.as_str()),
        (Component::RootDir, Component::RootDir) => true,
        (Component::CurDir, Component::CurDir) => true,
        (Component::ParentDir, Component::ParentDir) => true,
        (Component::Normal(x), Component::Normal(y)) => same_text(x.as_str(), y.as_str()),
        _ => false,
    }
}

/// The components of `path`. None of them is a prefix.
pub fn components(path: &str) -> (out: Vec<Component>)
    ensures
        out.deep_view() == components_of(path@),
        forall|i: int| 0 <= i < out.len() ==> !(out[i] is Prefix),
{
    let chars = chars_of(path);
    let n: usize = chars.len();
    let mut out: Vec<Component> = Vec::new();
    let mut from: usize = 0;
    if n > 0 && chars[0] == '/' {
        out.push(Component::RootDir);
        from = 1;
        assert(out.deep_view() =~= seq![ComponentView::RootDir]);
    } else {
        assert(out.deep_view() =~= Seq::<ComponentView>::empty());
    }
    while from < n
        invariant
            from <= n,
            n == chars.len(),
            chars@ == path@,
            out.deep_view() + components_from(path@, from as int) == components_of(path@),
            forall|i: int| 0 <= i < out.len() ==> !(out[i] is Prefix),
        decreases n - from,
    {
        let end = find_in(&chars, '/', from);
        let ghost before = out.deep_view();
        let ghost segment = path@.subrange(from as int, end as int);
        let ghost rest = components_from(path@, end + 1);
        if end - from == 1 && chars[from] == '.' {
            assert(segment =~= seq!['.']);
            if from == 0 {
                out.push(Component::CurDir);
                assert(out.deep_view() =~= before.push(ComponentView::CurDir));
                assert(out.deep_view() + rest =~= before + (seq![ComponentView::CurDir] + rest));
            }
        } else if end - from == 2 && chars[from] == '.' && chars[from + 1] == '.' {
            assert(segment =~= seq!['.', '.']);
            assert(segment.len() != seq!['.'].len());
            out.push(Component::ParentDir);
            assert(out.deep_view() =~= before.push(ComponentView::ParentDir));
            assert(out.deep_view() + rest =~= before + (seq![ComponentView::ParentDir] + rest));
        } else if end > from {
            let name = slice(path, from, end);
            assert(segment == seq!['.'] ==> segment.len() == 1 && segment[0] == '.');
            assert(segment == seq!['.', '.'] ==> segment.len() == 2 && segment[0] == '.'
                && segment[1] == '.');
            out.push(Component::Normal(name));
            assert(out.deep_view() =~= before.push(ComponentView::Normal(segment)));
            assert(out.deep_view() + rest =~= before + (seq![ComponentView::Normal(segment)]
                + rest));
        }
        from = if end < n {
            end + 1
        } else {
            n
        };
    }
    assert(out.deep_view() + components_from(path@, from as int) =~= out.deep_view());
    out
}

/// Whether `path` begins at the root.
pub fn is_absolute(path: &str) -> (res: bool)
    ensures
        res == absolute(path@),
{
    let chars = chars_of(path);
    chars.len() > 0 && chars[0] == '/'
}

/// Whether `path` lies at or below `base`.
pub fn starts_with(path: &str, base: &str) -> (res: bool)
    ensures
        res == under(path@, base@),
{
    let whole = components(path);
    let first = components(base);
    if first.len() > whole.len() {
        return false;
    }
    let n: usize = first.len();
    let mut i: usize = 0;
    while i < n
        invariant
            i <= n,
            n == first.len(),
            n <= whole.len(),
            whole.deep_view() == components_of(path@),
            first.deep_view() == components_of(base@),
            forall|k: int| 0 <= k < i ==> whole.deep_view()[k] == first.deep_view()[k],
        decreases n - i,
    {
        if !same_component(&whole[i], &first[i]) {
            let ghost known = whole.deep_view().subrange(0, n as int);
            assert(known[i as int] != first.deep_view()[i as int]);
            return false;
        }
        assert(whole.deep_view()[i as int] == first.deep_view()[i as int]);
        i += 1;
    }
    assert(first.deep_view() =~= whole.deep_view().subrange(0, n as int));
    true
}

/// `path` as seen from `prefix`.
pub fn adjoin(prefix: &str, path: &str) -> (out: String)
    ensures
        out@ == adjoined(prefix@, path@),
{
    let head = chars_of(prefix);
    if is_absolute(path) || head.len() == 0 {
        return path.to_owned();
    }
    let mut out = prefix.to_owned();
    if head[head.len() - 1] != '/' {
        proof {
            reveal_strlit("/");
        }
        assert("/"@ =~= seq!['/']);
        out.append("/");
    }
    out.append(path);
    out
}

/// The canonical form of components.
pub fn render(components: &Vec<Component>) -> (out: String)
    ensures
        out@ == rendered(components.deep_view()),
{
    let mut parts: Vec<String> = Vec::new();
    let mut i: usize = 0;
    assert(parts.deep_view() =~= Seq::<Seq<char>>::empty());
    assert(components.deep_view().take(0) =~= Seq::<ComponentView>::empty());
    while i < components.len()
        invariant
            i <= components.len(),
            parts.deep_view() == written_all(components.deep_view().take(i as int)),
        decreases components.len() - i,
    {
        let ghost before = parts.deep_view();
        assert(components.deep_view().take(i + 1).drop_last() =~= components.deep_view().take(
            i as int,
        ));
        assert(components.deep_view().take(i + 1).last() == components[i as int].deep_view());
        if let Some(text) = path_component_as_str(&components[i]) {
            parts.push(text);
            assert(parts.deep_view() =~= before.push(text@));
        }
        i += 1;
    }
    assert(components.deep_view().take(i as int) =~= components.deep_view());
    proof {
        reveal_strlit("/");
    }
    assert("/"@ =~= seq!['/']);
    join(&parts, "/")
}

/// The canonical form of `path`: its components with `/` between them.
pub fn path_to_string(path: &str) -> (out: String)
    ensures
        out@ == canonical(path@),
{
    let parts = components(path);
    render(&parts)
}

} // verus!
