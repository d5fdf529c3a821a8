//! The remotes of the repository, and how a list of them takes in what a
//! lookup and the configuration say.

use vstd::prelude::*;
use crate::config::{Config, ConfigView};
use crate::git::fetcher::GitFetcher;
use crate::text::same_text;

verus! {

/// A remote: a name with the URL it stands for.
#[derive(Debug, Clone, PartialEq, Eq)]
pub struct GitRemote {
    pub name: String,
    pub url: String,
}

/// A [`GitRemote`] with its texts as sequences of characters.
pub struct GitRemoteView {
    pub name: Seq<char>,
    pub url: Seq<char>,
}

impl DeepView for GitRemote {
    type V = GitRemoteView;

    open spec fn deep_view(&self) -> GitRemoteView {
        GitRemoteView { name: self.name@, url: self.url@ }
    }
}

/// The remote that a name and a URL make.
pub open spec fn remote_of(pair: (Seq<char>, Seq<char>)) -> GitRemoteView {
    GitRemoteView { name: pair.0, url: pair.1 }
}

/// Whether a remote in `list` goes by `name`.
pub open spec fn has_name(list: Seq<GitRemoteView>, name: Seq<char>) -> bool {
    exists|i: int| 0 <= i < list.len() && #[trigger] list[i].name == name
}

/// Whether no two remotes in `list` go by the same name.
pub open spec fn distinct_names(list: Seq<GitRemoteView>) -> bool {
    forall|i: int, j: int|
        0 <= i < j < list.len() ==> #[trigger] list[i].name != #[trigger] list[j].name
}

/// The remotes that a lookup found, in its order.
pub open spec fn found_list(fetched: Option<Seq<(Seq<char>, Seq<char>)>>) -> Seq<GitRemoteView> {
    match fetched {
        Some(pairs) => pairs.map_values(|pair: (Seq<char>, Seq<char>)| remote_of(pair)),
        None => Seq::empty(),
    }
}

/// Whether the remote at `at` in `old` stays beside `found`: none in `found`
/// goes by its name, and none after it in `old` does.
pub open spec fn stays(old: Seq<GitRemoteView>, found: Seq<GitRemoteView>, at: int) -> bool {
    &&& !has_name(found, old[at].name)
    &&& forall|j: int| at < j < old.len() ==> #[trigger] old[j].name != old[at].name
}

/// Those of the first `upto` remotes in `old` that stay beside `found`, in
/// order.
pub open spec fn staying(old: Seq<GitRemoteView>, found: Seq<GitRemoteView>, upto: int) -> Seq<
    GitRemoteView,
>
    decreases upto,
{
    if upto <= 0 {
        Seq::empty()
    } else if stays(old, found, upto - 1) {
        staying(old, found, upto - 1).push(old[upto - 1])
    } else {
        staying(old, found, upto - 1)
    }
}

/// The list after a lookup: what the lookup found, in its order, then those
/// known before that it did not find. What was found wins over what was known
/// by the same name; of two known by one name the later stays.
pub open spec fn fetched_list(
    fetched: Option<Seq<(Seq<char>, Seq<char>)>>,
    old: Seq<GitRemoteView>,
) -> Seq<GitRemoteView> {
    found_list(fetched) + staying(old, found_list(fetched), old.len() as int)
}

/// The first position at or after `from` of a remote that goes by `name`, or
/// the length of `list`.
pub open spec fn first_named(list: Seq<GitRemoteView>, name: Seq<char>, from: int) -> int
    decreases list.len() - from,
{
    if 0 <= from < list.len() && list[from].name != name {
        first_named(list, name, from + 1)
    } else {
        from
    }
}

/// `list` with `value` taken in: where a remote goes by its name, the first
/// such gets its URL; else it joins the list at the end.
pub open spec fn merged(list: Seq<GitRemoteView>, value: GitRemoteView) -> Seq<GitRemoteView> {
    let at = first_named(list, value.name, 0);
    if 0 <= at < list.len() {
        list.update(at, GitRemoteView { name: list[at].name, url: value.url })
    } else {
        list.push(value)
    }
}

/// The remote that the configuration describes: it does so when it gives both
/// a name and a URL.
pub open spec fn remote_in(c: ConfigView) -> Option<GitRemoteView> {
    match (c.git_remote_name, c.git_remote_url) {
        (Some(name), Some(url)) => Some(GitRemoteView { name, url }),
        _ => None,
    }
}

/// `list` with the remote of the configuration taken in, if it describes one.
pub open spec fn remotes_from_config(list: Seq<GitRemoteView>, c: ConfigView) -> Seq<
    GitRemoteView,
> {
    match remote_in(c) {
        Some(value) => merged(list, value),
        None => list,
    }
}

/// What [`first_named`] finds lies between `from` and the end, goes by the
/// name unless it is the end, and none before it does.
pub proof fn lemma_first_named(list: Seq<GitRemoteView>, name: Seq<char>, from: int)
    requires
        0 <= from <= list.len(),
    ensures
        from <= first_named(list, name, from) <= list.len(),
        first_named(list, name, from) < list.len() ==> list[first_named(list, name, from)].name
            == name,
        forall|i: int| from <= i < first_named(list, name, from) ==> list[i].name != name,
    decreases list.len() - from,
{
    if from < list.len() && list[from].name != name {
        lemma_first_named(list, name, from + 1);
    }
}

/// Whether `remote` is one of the first `upto` in `old`, and one that stays
/// beside `found`.
pub open spec fn stays_among(
    old: Seq<GitRemoteView>,
    found: Seq<GitRemoteView>,
    upto: int,
    remote: GitRemoteView,
) -> bool {
    exists|i: int| 0 <= i < upto && old[i] == remote && #[trigger] stays(old, found, i)
}

/// What stays of `old` is in `old`, goes by names that are found nowhere in
/// `found`, and by no name twice.
pub proof fn lemma_staying(old: Seq<GitRemoteView>, found: Seq<GitRemoteView>, upto: int)
    requires
        0 <= upto <= old.len(),
    ensures
        distinct_names(staying(old, found, upto)),
        forall|k: int|
            0 <= k < staying(old, found, upto).len() ==> !has_name(
                found,
                #[trigger] staying(old, found, upto)[k].name,
            ),
        forall|k: int|
            0 <= k < staying(old, found, upto).len() ==> stays_among(
                old,
                found,
                upto,
                #[trigger] staying(old, found, upto)[k],
            ),
    decreases upto,
{
    if upto > 0 {
        lemma_staying(old, found, upto - 1);
        let before = staying(old, found, upto - 1);
        let now = staying(old, found, upto);
        assert forall|k: int| 0 <= k < now.len() implies stays_among(
            old,
            found,
            upto,
            #[trigger] now[k],
        ) by {
            if k < before.len() {
                assert(stays_among(old, found, upto - 1, before[k]));
                let i = choose|i: int|
                    0 <= i < upto - 1 && old[i] == before[k] && #[trigger] stays(old, found, i);
                assert(0 <= i < upto && old[i] == now[k] && stays(old, found, i));
            } else {
                assert(old[upto - 1] == now[k] && stays(old, found, upto - 1));
            }
        }
        if stays(old, found, upto - 1) {
            assert forall|i: int, j: int| 0 <= i < j < now.len() implies now[i].name
                != now[j].name by {
                if j == before.len() {
                    assert(stays_among(old, found, upto - 1, before[i]));
                    let a = choose|a: int|
                        0 <= a < upto - 1 && old[a] == before[i] && #[trigger] stays(
                            old,
                            found,
                            a,
                        );
                    assert(old[upto - 1].name != old[a].name);
                }
            }
        }
    }
}

/// Where a lookup finds no name twice, the list after it holds no name twice,
/// whatever was known before.
pub proof fn lemma_fetched_list_distinct(
    fetched: Option<Seq<(Seq<char>, Seq<char>)>>,
    old: Seq<GitRemoteView>,
)
    requires
        distinct_names(found_list(fetched)),
    ensures
        distinct_names(fetched_list(fetched, old)),
{
    let found = found_list(fetched);
    let rest = staying(old, found, old.len() as int);
    let all = fetched_list(fetched, old);
    lemma_staying(old, found, old.len() as int);
    assert forall|i: int, j: int| 0 <= i < j < all.len() implies all[i].name != all[j].name by {
        if j < found.len() {
        } else if i >= found.len() {
            assert(rest[i - found.len()].name != rest[j - found.len()].name);
        } else {
            assert(!has_name(found, rest[j - found.len()].name));
            assert(found[i].name != rest[j - found.len()].name);
        }
    }
}

/// Taking a remote into a list that holds no name twice leaves a list that
/// holds no name twice.
pub proof fn lemma_merged_distinct(list: Seq<GitRemoteView>, value: GitRemoteView)
    requires
        distinct_names(list),
    ensures
        distinct_names(merged(list, value)),
{
    lemma_first_named(list, value.name, 0);
    let at = first_named(list, value.name, 0);
    let now = merged(list, value);
    assert forall|i: int, j: int| 0 <= i < j < now.len() implies now[i].name != now[j].name by {
        if at < list.len() {
            assert(now[i].name == list[i].name);
            assert(now[j].name == list[j].name);
        } else {
            if j == list.len() {
                assert(list[i].name != value.name);
            }
        }
    }
}

/// The first remote by a name is at `at` when none before `at` goes by the
/// name and the one at `at`, if there is one, does.
pub proof fn lemma_first_named_is(list: Seq<GitRemoteView>, name: Seq<char>, at: int)
    requires
        0 <= at <= list.len(),
        forall|i: int| 0 <= i < at ==> list[i].name != name,
        at < list.len() ==> list[at].name == name,
    ensures
        first_named(list, name, 0) == at,
{
    lemma_first_named(list, name, 0);
}

/// Of a list that begins with remotes whose names are all in `found` and goes
/// on with remotes of distinct names that are not, the second part stays.
pub proof fn lemma_staying_settled(
    head: Seq<GitRemoteView>,
    tail: Seq<GitRemoteView>,
    found: Seq<GitRemoteView>,
    upto: int,
)
    requires
        forall|i: int| 0 <= i < head.len() ==> has_name(found, #[trigger] head[i].name),
        forall|k: int| 0 <= k < tail.len() ==> !has_name(found, #[trigger] tail[k].name),
        distinct_names(tail),
        0 <= upto <= head.len() + tail.len(),
    ensures
        staying(head + tail, found, upto) == (if upto <= head.len() {
            Seq::<GitRemoteView>::empty()
        } else {
            tail.take(upto - head.len())
        }),
    decreases upto,
{
    let all = head + tail;
    if upto > 0 {
        lemma_staying_settled(head, tail, found, upto - 1);
        let at = upto - 1;
        if at < head.len() {
            assert(all[at] == head[at]);
            assert(!stays(all, found, at));
        } else {
            let k = at - head.len();
            assert(all[at] == tail[k]);
            assert forall|j: int| at < j < all.len() implies #[trigger] all[j].name
                != all[at].name by {
                assert(all[j] == tail[j - head.len()]);
            }
            assert(stays(all, found, at));
            assert(tail.take(k).push(tail[k]) =~= tail.take(k + 1));
            if k == 0 {
                assert(tail.take(0) =~= Seq::<GitRemoteView>::empty());
            }
        }
    } else {
        assert(staying(all, found, upto) =~= Seq::<GitRemoteView>::empty());
    }
}

/// Looking up again and hearing the configuration again changes nothing: the
/// list of remotes that one round leaves is the list that a second round
/// leaves.
pub proof fn lemma_remotes_settle(
    fetched: Option<Seq<(Seq<char>, Seq<char>)>>,
    old: Seq<GitRemoteView>,
    c: ConfigView,
)
    ensures
        remotes_from_config(
            fetched_list(fetched, remotes_from_config(fetched_list(fetched, old), c)),
            c,
        ) == remotes_from_config(fetched_list(fetched, old), c),
{
    let found = found_list(fetched);
    let rest = staying(old, found, old.len() as int);
    let first = found + rest;
    let once = remotes_from_config(first, c);
    lemma_staying(old, found, old.len() as int);
    assert forall|i: int| 0 <= i < found.len() implies has_name(
        found,
        #[trigger] found[i].name,
    ) by {
        assert(found[i].name == found[i].name);
    }
    match remote_in(c) {
        None => {
            lemma_staying_settled(found, rest, found, first.len() as int);
            assert(rest.take(rest.len() as int) =~= rest);
        },
        Some(value) => {
            lemma_first_named(first, value.name, 0);
            let at = first_named(first, value.name, 0);
            if at < found.len() {
                let renewed = found.update(
                    at,
                    GitRemoteView { name: found[at].name, url: value.url },
                );
                assert(first[at] == found[at]);
                assert(once =~= renewed + rest);
                assert forall|i: int| 0 <= i < renewed.len() implies has_name(
                    found,
                    #[trigger] renewed[i].name,
                ) by {
                    assert(found[i].name == renewed[i].name);
                }
                lemma_staying_settled(renewed, rest, found, once.len() as int);
                assert(rest.take(rest.len() as int) =~= rest);
                assert(fetched_list(fetched, once) == first);
            } else if at < first.len() {
                let k = at - found.len();
                assert(first[at] == rest[k]);
                let renewed = rest.update(k, GitRemoteView { name: rest[k].name, url: value.url });
                assert(once =~= found + renewed);
                assert forall|i: int| 0 <= i < renewed.len() implies !has_name(
                    found,
                    #[trigger] renewed[i].name,
                ) by {
                    assert(renewed[i].name == rest[i].name);
                }
                assert forall|i: int, j: int| 0 <= i < j < renewed.len() implies renewed[i].name
                    != renewed[j].name by {
                    assert(renewed[i].name == rest[i].name);
                    assert(renewed[j].name == rest[j].name);
                }
                lemma_staying_settled(found, renewed, found, once.len() as int);
                assert(renewed.take(renewed.len() as int) =~= renewed);
                let second = fetched_list(fetched, once);
                assert(second == once);
                assert forall|i: int| 0 <= i < at implies once[i].name != value.name by {
                    assert(once[i].name == first[i].name);
                }
                lemma_first_named_is(once, value.name, at);
                assert(merged(once, value) =~= once);
            } else {
                let longer = rest.push(value);
                assert(once =~= found + longer);
                assert forall|i: int| 0 <= i < longer.len() implies !has_name(
                    found,
                    #[trigger] longer[i].name,
                ) by {
                    if i == rest.len() {
                        if has_name(found, value.name) {
                            let m = choose|m: int|
                                0 <= m < found.len() && #[trigger] found[m].name == value.name;
                            assert(first[m].name == value.name);
                        }
                    }
                }
                assert forall|i: int, j: int| 0 <= i < j < longer.len() implies longer[i].name
                    != longer[j].name by {
                    if j == rest.len() {
                        assert(first[found.len() + i].name != value.name);
                    }
                }
                lemma_staying_settled(found, longer, found, once.len() as int);
                assert(longer.take(longer.len() as int) =~= longer);
                let second = fetched_list(fetched, once);
                assert(second == once);
                assert forall|i: int| 0 <= i < at implies once[i].name != value.name by {
                    assert(once[i] == first[i]);
                }
                lemma_first_named_is(once, value.name, at);
                assert(merged(once, value) =~= once);
            }
        },
    }
}

/// Whether a remote in `list`, from position `from` on, goes by `name`.
fn goes_by(list: &Vec<GitRemote>, name: &str, from: usize) -> (res: bool)
    requires
        from <= list.len(),
    ensures
        res == exists|i: int|
            from <= i < list.len() && #[trigger] list.deep_view()[i].name == name@,
{
    let mut at: usize = from;
    while at < list.len()
        invariant
            from <= at <= list.len(),
            forall|i: int| from <= i < at ==> #[trigger] list.deep_view()[i].name != name@,
        decreases list.len() - at,
    {
        assert(list.deep_view()[at as int].name == list[at as int].name@);
        if same_text(list[at].name.as_str(), name) {
            return true;
        }
        at += 1;
    }
    false
}

impl GitRemote {
    /// The remote that a name and a URL make.
    pub fn new(pair: (String, String)) -> (remote: GitRemote)
        ensures
            remote.deep_view() == remote_of(pair.deep_view()),
    {
        GitRemote { name: pair.0, url: pair.1 }
    }

    /// The remotes that a lookup found, in its order.
    pub fn found(git_fetcher: &GitFetcher) -> (res: Vec<GitRemote>)
        ensures
            res.deep_view() == found_list(git_fetcher.remotes.deep_view()),
    {
        let mut res: Vec<GitRemote> = Vec::new();
        if let Some(list) = &git_fetcher.remotes {
            let mut i: usize = 0;
            while i < list.len()
                invariant
                    i <= list.len(),
                    res.len() == i,
                    forall|k: int|
                        0 <= k < i ==> res@[k].deep_view() == remote_of(list@[k].deep_view()),
                decreases list.len() - i,
            {
                res.push(GitRemote::new((list[i].0.clone(), list[i].1.clone())));
                i += 1;
            }
        }
        assert(res.deep_view() =~= found_list(git_fetcher.remotes.deep_view()));
        res
    }

    /// The list after a lookup: see [`fetched_list`].
    pub fn fetch_list(git_fetcher: &GitFetcher, old: Vec<GitRemote>) -> (res: Vec<GitRemote>)
        ensures
            res.deep_view() == fetched_list(git_fetcher.remotes.deep_view(), old.deep_view()),
    {
        let mut res = GitRemote::found(git_fetcher);
        let ghost found = res.deep_view();
        let mut rest: Vec<GitRemote> = Vec::new();
        let mut at: usize = 0;
        assert(rest.deep_view() =~= staying(old.deep_view(), found, 0));
        while at < old.len()
            invariant
                at <= old.len(),
                res.deep_view() == found,
                rest.deep_view() == staying(old.deep_view(), found, at as int),
            decreases old.len() - at,
        {
            let ghost before = rest.deep_view();
            let name = old[at].name.as_str();
            assert(old.deep_view()[at as int].name == name@);
            if !goes_by(&res, name, 0) && !goes_by(&old, name, at + 1) {
                assert(stays(old.deep_view(), found, at as int));
                rest.push(GitRemote { name: old[at].name.clone(), url: old[at].url.clone() });
                assert(rest.deep_view() =~= before.push(old.deep_view()[at as int]));
            } else {
                assert(!stays(old.deep_view(), found, at as int));
            }
            at += 1;
        }
        let ghost kept = rest.deep_view();
        res.append(&mut rest);
        assert(res.deep_view() =~= found + kept);
        res
    }

    /// The remote that the configuration describes.
    pub fn fetch_from_config(config: &Config) -> (res: Option<GitRemote>)
        ensures
            res.deep_view() == remote_in(config@),
    {
        if let Some(name) = &config.git_remote_name {
            if let Some(url) = &config.git_remote_url {
                return Some(GitRemote::new((name.clone(), url.clone())));
            }
        }
        None
    }

    /// Takes `value` into `list`: see [`merged`].
    pub fn merge_into(list: &mut Vec<GitRemote>, value: GitRemote)
        ensures
            final(list).deep_view() == merged(old(list).deep_view(), value.deep_view()),
    {
        let mut at: usize = 0;
        while at < list.len() && !same_text(list[at].name.as_str(), value.name.as_str())
            invariant
                at <= list.len(),
                *list == *old(list),
                first_named(list.deep_view(), value.name@, 0) == first_named(
                    list.deep_view(),
                    value.name@,
                    at as int,
                ),
            decreases list.len() - at,
        {
            assert(list.deep_view()[at as int].name == list[at as int].name@);
            at += 1;
        }
        let ghost before = list.deep_view();
        if at < list.len() {
            assert(before[at as int].name == list[at as int].name@);
            list[at].url = value.url;
            assert(list.deep_view() =~= merged(before, value.deep_view()));
        } else {
            list.push(value);
            assert(list.deep_view() =~= merged(before, value.deep_view()));
        }
    }
}

} // verus!
