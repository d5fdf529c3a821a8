//! Why the canonical form of a path deserves its name: parting it into
//! components and writing them again leaves it as it is.

use vstd::prelude::*;
use crate::helpers::{
    absolute, canonical, component_of, components_from, components_of, joined, rendered, written,
    written_all, ComponentView,
};
use crate::text::{find_from, lemma_find_from_bounds};

verus! {

/// Whether `text` can stand between two separators as a name of its own: it
/// is there, holds no `/`, and is neither `.` nor `..`.
pub open spec fn plain_name(text: Seq<char>) -> bool {
    &&& text.len() > 0
    &&& forall|i: int| 0 <= i < text.len() ==> text[i] != '/'
    &&& text != seq!['.']
    &&& text != seq!['.', '.']
}

/// Whether a component can stand anywhere in a path: it is `..` or a plain
/// name.
pub open spec fn inner_part(c: ComponentView) -> bool {
    match c {
        ComponentView::ParentDir => true,
        ComponentView::Normal(text) => plain_name(text),
        _ => false,
    }
}

/// Whether components are such as come from parting a text that begins at
/// `from`: `.` only in the first place, and only of a text parted from its
/// beginning; else `..` and plain names.
pub open spec fn parted_from(components: Seq<ComponentView>, from: int) -> bool {
    forall|i: int|
        0 <= i < components.len() ==> inner_part(#[trigger] components[i]) || (i == 0 && from == 0
            && components[i] is CurDir)
}

/// The first `c` at or after `from` is at `at` when none stands before `at`
/// and one stands at `at`, if anything does.
pub proof fn lemma_find_from_is(s: Seq<char>, c: char, from: int, at: int)
    requires
        0 <= from <= at <= s.len(),
        forall|i: int| from <= i < at ==> s[i] != c,
        at < s.len() ==> s[at] == c,
    ensures
        find_from(s, c, from) == at,
    decreases at - from,
{
    if from < at {
        lemma_find_from_is(s, c, from + 1, at);
    }
}

/// The components of a text, from any beginning of a segment on, are such as
/// [`parted_from`] describes.
pub proof fn lemma_components_are_parted(s: Seq<char>, from: int)
    requires
        0 <= from <= s.len(),
    ensures
        parted_from(components_from(s, from), from),
    decreases s.len() + 1 - from,
{
    if from < s.len() {
        lemma_find_from_bounds(s, '/', from);
        let end = find_from(s, '/', from);
        let rest = components_from(s, end + 1);
        if end < s.len() {
            lemma_components_are_parted(s, end + 1);
        }
        let segment = s.subrange(from, end);
        let all = components_from(s, from);
        match component_of(segment, from == 0) {
            Some(c) => {
                assert(forall|i: int| 0 <= i < segment.len() ==> segment[i] == s[from + i]);
                assert(inner_part(c) || (from == 0 && c is CurDir));
                assert forall|i: int| 0 <= i < all.len() implies inner_part(#[trigger] all[i]) || (
                i == 0 && from == 0 && all[i] is CurDir) by {
                    if i > 0 {
                        assert(all[i] == rest[i - 1]);
                        assert(inner_part(rest[i - 1]));
                    }
                }
            },
            None => {
                assert forall|i: int| 0 <= i < all.len() implies inner_part(#[trigger] all[i]) by {
                    assert(inner_part(rest[i]));
                }
            },
        }
    }
}

/// Texts in a row are the first, the separator, and the others in a row.
pub proof fn lemma_joined_front(parts: Seq<Seq<char>>, sep: Seq<char>)
    requires
        parts.len() >= 2,
    ensures
        joined(parts, sep) == parts[0] + sep + joined(parts.drop_first(), sep),
    decreases parts.len(),
{
    let tail = parts.drop_first();
    let front = parts.drop_last();
    assert(joined(parts, sep) == joined(front, sep) + sep + parts.last());
    assert(tail.last() == parts.last());
    if parts.len() == 2 {
        assert(joined(front, sep) == parts[0]);
        assert(joined(tail, sep) == parts[1]);
    } else {
        lemma_joined_front(front, sep);
        assert(front.drop_first() =~= tail.drop_last());
        assert(joined(tail, sep) == joined(tail.drop_last(), sep) + sep + tail.last());
        assert(parts[0] + sep + joined(tail.drop_last(), sep) + sep + parts.last() =~= parts[0]
            + sep + (joined(tail.drop_last(), sep) + sep + parts.last()));
    }
}

/// Of components that are all written, each is written in its place.
pub proof fn lemma_written_all_each(components: Seq<ComponentView>)
    requires
        forall|i: int| 0 <= i < components.len() ==> written(#[trigger] components[i]) is Some,
    ensures
        written_all(components).len() == components.len(),
        forall|i: int|
            0 <= i < components.len() ==> Some(#[trigger] written_all(components)[i]) == written(
                components[i],
            ),
    decreases components.len(),
{
    if components.len() > 0 {
        assert(written(components[components.len() - 1]) is Some);
        lemma_written_all_each(components.drop_last());
    }
}

/// Parting what is written of components gives the components back: where
/// the text `x` holds, from `from` on, components in canonical form, those
/// are its components from there.
pub proof fn lemma_parting_what_is_written(x: Seq<char>, from: int, parts: Seq<ComponentView>)
    requires
        0 <= from <= x.len(),
        parted_from(parts, from),
        x.subrange(from, x.len() as int) == rendered(parts),
    ensures
        components_from(x, from) == parts,
    decreases parts.len(),
{
    let slash = seq!['/'];
    assert forall|i: int| 0 <= i < parts.len() implies written(#[trigger] parts[i]) is Some by {
        assert(inner_part(parts[i]) || parts[i] is CurDir);
    }
    lemma_written_all_each(parts);
    let texts = written_all(parts);
    let rest = x.subrange(from, x.len() as int);
    if parts.len() == 0 {
        assert(rest.len() == 0);
    } else {
        let first = texts[0];
        assert(Some(first) == written(parts[0]));
        assert(inner_part(parts[0]) || (from == 0 && parts[0] is CurDir));
        assert(first.len() > 0 && forall|i: int| 0 <= i < first.len() ==> first[i] != '/');
        let end = from + first.len();
        if parts.len() == 1 {
            assert(rest == first);
        } else {
            lemma_joined_front(texts, slash);
            assert(rest == first + slash + joined(texts.drop_first(), slash));
        }
        assert(end <= x.len()) by {
            assert(rest.len() >= first.len());
        }
        assert forall|i: int| from <= i < end implies x[i] != '/' by {
            assert(x[i] == rest[i - from]);
            assert(rest[i - from] == first[i - from]);
        }
        if end < x.len() {
            assert(x[end] == rest[first.len() as int]);
            assert(parts.len() >= 2);
            assert(rest[first.len() as int] == slash[0]);
        }
        lemma_find_from_is(x, '/', from, end);
        assert(x.subrange(from, end) =~= first);
        assert(component_of(first, from == 0) == Some(parts[0]));
        let others = parts.drop_first();
        assert forall|i: int| 0 <= i < others.len() implies inner_part(#[trigger] others[i]) by {
            assert(others[i] == parts[i + 1]);
        }
        if parts.len() == 1 {
            assert(others =~= Seq::<ComponentView>::empty());
            assert(end == x.len());
        } else {
            assert forall|i: int| 0 <= i < others.len() implies written(
                #[trigger] others[i],
            ) is Some by {
                assert(inner_part(others[i]));
            }
            lemma_written_all_each(others);
            assert(written_all(others) =~= texts.drop_first());
            let after = joined(texts.drop_first(), slash);
            assert(rest.len() == first.len() + 1 + after.len());
            assert forall|i: int| 0 <= i < after.len() implies x[end + 1 + i] == after[i] by {
                assert(x[end + 1 + i] == rest[first.len() + 1 + i]);
            }
            assert(x.subrange(end + 1, x.len() as int) =~= after);
            lemma_parting_what_is_written(x, end + 1, others);
        }
        assert(components_from(x, end + 1) == others);
        assert(seq![parts[0]] + others =~= parts);
    }
}

/// The canonical form of a canonical form is that form: parting it and
/// writing its components again changes nothing.
pub proof fn lemma_canonical_settles(s: Seq<char>)
    ensures
        canonical(canonical(s)) == canonical(s),
{
    let slash = seq!['/'];
    let parts = components_of(s);
    let text = rendered(parts);
    if absolute(s) {
        lemma_components_are_parted(s, 1);
        let others = components_from(s, 1);
        assert(parts.drop_first() =~= others);
        assert forall|i: int| 0 <= i < parts.len() implies written(#[trigger] parts[i]) is Some by {
            if i > 0 {
                assert(parts[i] == others[i - 1]);
                assert(inner_part(others[i - 1]));
            }
        }
        lemma_written_all_each(parts);
        let texts = written_all(parts);
        assert(texts[0] =~= Seq::<char>::empty());
        if others.len() == 0 {
            assert(text =~= Seq::<char>::empty());
            assert(components_of(text) =~= Seq::<ComponentView>::empty());
            assert(written_all(components_of(text)) =~= Seq::<Seq<char>>::empty());
        } else {
            lemma_joined_front(texts, slash);
            assert forall|i: int| 0 <= i < others.len() implies written(
                #[trigger] others[i],
            ) is Some by {
                assert(inner_part(others[i]));
            }
            lemma_written_all_each(others);
            assert(written_all(others) =~= texts.drop_first());
            assert(text =~= slash + rendered(others));
            assert(text[0] == '/');
            assert(text.subrange(1, text.len() as int) =~= rendered(others));
            assert(parted_from(others, 1)) by {
                assert forall|i: int| 0 <= i < others.len() implies inner_part(
                    #[trigger] others[i],
                ) by {}
            }
            lemma_parting_what_is_written(text, 1, others);
            assert(components_of(text) =~= parts);
        }
    } else {
        lemma_components_are_parted(s, 0);
        if parts.len() == 0 {
            assert(written_all(parts) =~= Seq::<Seq<char>>::empty());
            assert(text =~= Seq::<char>::empty());
            assert(components_of(text) =~= Seq::<ComponentView>::empty());
        } else {
            crate::helpers::lemma_canonical_stays_relative(s);
            assert(text.subrange(0, text.len() as int) =~= text);
            lemma_parting_what_is_written(text, 0, parts);
        }
    }
}

} // verus!
