//! Lists of notifications: looking up, dropping and fronting entries by id.

use std::collections::HashSet;
use vstd::prelude::*;

use crate::notification::{Notification, NotificationView};

verus! {

broadcast use vstd::std_specs::hash::group_hash_axioms;

/// Whether a notification with this id is listed.
pub open spec fn has_id(list: Seq<NotificationView>, id: u32) -> bool {
    exists|i: int| 0 <= i < list.len() && (#[trigger] list[i]).id == id
}

/// Whether no id is listed twice.
pub open spec fn unique_ids(list: Seq<NotificationView>) -> bool {
    forall|i: int, j: int|
        0 <= i < j < list.len() ==> (#[trigger] list[i]).id != (#[trigger] list[j]).id
}

/// The list without the notifications of an id.
pub open spec fn without(list: Seq<NotificationView>, id: u32) -> Seq<NotificationView> {
    list.filter(|n: NotificationView| n.id != id)
}

/// The list without the notifications of some ids.
pub open spec fn without_all(list: Seq<NotificationView>, ids: Seq<u32>) -> Seq<NotificationView> {
    list.filter(|n: NotificationView| !ids.contains(n.id))
}

/// The listed notifications that have one of some ids.
pub open spec fn only_all(list: Seq<NotificationView>, ids: Seq<u32>) -> Seq<NotificationView> {
    list.filter(|n: NotificationView| ids.contains(n.id))
}

/// The list with a notification at its front, in place of those of the same id.
pub open spec fn fronted(list: Seq<NotificationView>, n: NotificationView) -> Seq<
    NotificationView,
> {
    seq![n] + without(list, n.id)
}

/// The first listed notification with an id.
pub open spec fn first_with(list: Seq<NotificationView>, id: u32) -> Option<NotificationView>
    decreases list.len(),
{
    if list.len() == 0 {
        None
    } else if list[0].id == id {
        Some(list[0])
    } else {
        first_with(list.drop_first(), id)
    }
}

/// Filtering one more element appends it when it is kept.
pub proof fn lemma_filter_step<A>(s: Seq<A>, p: int, pred: spec_fn(A) -> bool)
    requires
        0 <= p < s.len(),
    ensures
        s.take(p + 1).filter(pred) == (if pred(s[p]) {
            s.take(p).filter(pred).push(s[p])
        } else {
            s.take(p).filter(pred)
        }),
{
    reveal(Seq::filter);
    assert(s.take(p + 1).drop_last() =~= s.take(p));
    assert(s.take(p + 1).last() == s[p]);
}

/// A filtered sequence consists of the elements that are kept.
pub proof fn lemma_filter_members<A>(s: Seq<A>, pred: spec_fn(A) -> bool)
    ensures
        forall|i: int| 0 <= i < s.filter(pred).len() ==> pred(#[trigger] s.filter(pred)[i]),
        forall|i: int|
            0 <= i < s.filter(pred).len() ==> s.contains(#[trigger] s.filter(pred)[i]),
        forall|i: int|
            0 <= i < s.len() && pred(#[trigger] s[i]) ==> s.filter(pred).contains(s[i]),
    decreases s.len(),
{
    reveal(Seq::filter);
    if s.len() > 0 {
        let front = s.drop_last();
        lemma_filter_members(front, pred);
        let whole = s.filter(pred);
        let part = front.filter(pred);
        assert forall|i: int| 0 <= i < whole.len() implies pred(#[trigger] whole[i]) && s.contains(
            whole[i],
        ) by {
            if i < part.len() {
                assert(whole[i] == part[i]);
                let j = choose|j: int| 0 <= j < front.len() && front[j] == part[i];
                assert(s[j] == whole[i]);
            } else {
                assert(s[s.len() - 1] == whole[i]);
            }
        }
        assert forall|i: int| 0 <= i < s.len() && pred(#[trigger] s[i]) implies whole.contains(
            s[i],
        ) by {
            if i < front.len() {
                assert(front[i] == s[i]);
                let j = choose|j: int| 0 <= j < part.len() && part[j] == s[i];
                assert(whole[j] == s[i]);
            } else {
                assert(whole.last() == s[i]);
            }
        }
    }
}

/// Filtering keeps everything when everything is kept.
pub proof fn lemma_filter_all<A>(s: Seq<A>, pred: spec_fn(A) -> bool)
    requires
        forall|i: int| 0 <= i < s.len() ==> pred(#[trigger] s[i]),
    ensures
        s.filter(pred) == s,
    decreases s.len(),
{
    reveal(Seq::filter);
    if s.len() > 0 {
        lemma_filter_all(s.drop_last(), pred);
        assert(pred(s[s.len() - 1]));
        assert(s.drop_last().push(s.last()) =~= s);
    }
}

/// Filtering by the same choice gives the same sequence.
pub proof fn lemma_filter_same<A>(s: Seq<A>, p: spec_fn(A) -> bool, q: spec_fn(A) -> bool)
    requires
        forall|i: int| 0 <= i < s.len() ==> p(#[trigger] s[i]) == q(s[i]),
    ensures
        s.filter(p) == s.filter(q),
    decreases s.len(),
{
    reveal(Seq::filter);
    if s.len() > 0 {
        lemma_filter_same(s.drop_last(), p, q);
        assert(p(s[s.len() - 1]) == q(s[s.len() - 1]));
    }
}

/// Filtering twice keeps what both choices keep.
pub proof fn lemma_filter_twice<A>(s: Seq<A>, p: spec_fn(A) -> bool, q: spec_fn(A) -> bool)
    ensures
        s.filter(p).filter(q) == s.filter(|a: A| p(a) && q(a)),
    decreases s.len(),
{
    reveal(Seq::filter);
    if s.len() > 0 {
        lemma_filter_twice(s.drop_last(), p, q);
        let part = s.drop_last().filter(p);
        if p(s.last()) {
            assert(part.push(s.last()).drop_last() =~= part);
        }
    }
}

/// The filter of a concatenation is the concatenation of the filters.
pub proof fn lemma_filter_add<A>(a: Seq<A>, b: Seq<A>, pred: spec_fn(A) -> bool)
    ensures
        (a + b).filter(pred) == a.filter(pred) + b.filter(pred),
    decreases b.len(),
{
    reveal(Seq::filter);
    if b.len() == 0 {
        assert(a + b =~= a);
        assert(a.filter(pred) + b.filter(pred) =~= a.filter(pred));
    } else {
        lemma_filter_add(a, b.drop_last(), pred);
        assert((a + b).drop_last() =~= a + b.drop_last());
        assert((a + b).filter(pred) =~= a.filter(pred) + b.filter(pred));
    }
}

/// A filtered list of unique ids has unique ids.
pub proof fn lemma_filter_unique(
    list: Seq<NotificationView>,
    pred: spec_fn(NotificationView) -> bool,
)
    requires
        unique_ids(list),
    ensures
        unique_ids(list.filter(pred)),
    decreases list.len(),
{
    reveal(Seq::filter);
    if list.len() > 0 {
        let front = list.drop_last();
        assert(unique_ids(front)) by {
            assert forall|i: int, j: int| 0 <= i < j < front.len() implies (#[trigger] front[i]).id
                != (#[trigger] front[j]).id by {
                assert(list[i].id != list[j].id);
            }
        }
        lemma_filter_unique(front, pred);
        lemma_filter_members(front, pred);
        let part = front.filter(pred);
        if pred(list.last()) {
            let whole = part.push(list.last());
            assert forall|i: int, j: int| 0 <= i < j < whole.len() implies (#[trigger] whole[i]).id
                != (#[trigger] whole[j]).id by {
                if j < part.len() {
                    assert(part[i].id != part[j].id);
                } else {
                    assert(front.contains(part[i]));
                    let k = choose|k: int| 0 <= k < front.len() && front[k] == part[i];
                    assert(list[k].id != list[list.len() - 1].id);
                }
            }
        }
    }
}

/// A list without an id does not have it, keeps every other id, and is unchanged when the
/// id was not there.
pub proof fn lemma_without(list: Seq<NotificationView>, id: u32)
    ensures
        !has_id(without(list, id), id),
        forall|other: u32| other != id ==> has_id(without(list, id), other) == has_id(list, other),
        !has_id(list, id) ==> without(list, id) == list,
        without(list, id).len() <= list.len(),
        has_id(list, id) ==> without(list, id).len() < list.len(),
{
    let pred = |n: NotificationView| n.id != id;
    let rest = list.filter(pred);
    lemma_filter_members(list, pred);
    assert forall|other: u32| other != id implies has_id(rest, other) == has_id(list, other) by {
        if has_id(rest, other) {
            let i = choose|i: int| 0 <= i < rest.len() && (#[trigger] rest[i]).id == other;
            assert(list.contains(rest[i]));
            let j = choose|j: int| 0 <= j < list.len() && list[j] == rest[i];
            assert(list[j].id == other);
        }
        if has_id(list, other) {
            let i = choose|i: int| 0 <= i < list.len() && (#[trigger] list[i]).id == other;
            assert(pred(list[i]));
            assert(rest.contains(list[i]));
            let j = choose|j: int| 0 <= j < rest.len() && rest[j] == list[i];
            assert(rest[j].id == other);
        }
    }
    if !has_id(list, id) {
        assert forall|i: int| 0 <= i < list.len() implies pred(#[trigger] list[i]) by {}
        lemma_filter_all(list, pred);
    }
    lemma_filter_shorter(list, pred);
}

/// Filtering never lengthens a sequence, and shortens it when something is left out.
pub proof fn lemma_filter_shorter<A>(s: Seq<A>, pred: spec_fn(A) -> bool)
    ensures
        s.filter(pred).len() <= s.len(),
        forall|i: int| 0 <= i < s.len() && !pred(#[trigger] s[i]) ==> s.filter(pred).len() < s.len(),
    decreases s.len(),
{
    reveal(Seq::filter);
    if s.len() > 0 {
        lemma_filter_shorter(s.drop_last(), pred);
        assert forall|i: int| 0 <= i < s.len() && !pred(#[trigger] s[i]) implies s.filter(pred).len()
            < s.len() by {
            if i < s.len() - 1 {
                assert(s.drop_last()[i] == s[i]);
            }
        }
    }
}

/// The index of the first notification with an id.
pub(crate) fn position_of(list: &Vec<Notification>, id: u32) -> (at: Option<usize>)
    ensures
        at is Some <==> has_id(list.deep_view(), id),
        at matches Some(i) ==> i < list@.len() && first_with(list.deep_view(), id) == Some(
            list@[i as int]@,
        ) && list@[i as int].id == id,
        at is None ==> first_with(list.deep_view(), id) is None,
{
    let mut i: usize = 0;
    assert(list.deep_view().skip(0) =~= list.deep_view());
    while i < list.len()
        invariant
            i <= list@.len(),
            forall|j: int| 0 <= j < i ==> (#[trigger] list.deep_view()[j]).id != id,
            first_with(list.deep_view(), id) == first_with(list.deep_view().skip(i as int), id),
        decreases list@.len() - i,
    {
        assert(list.deep_view().skip(i as int)[0] == list@[i as int]@);
        if list[i].id == id {
            assert(list.deep_view()[i as int].id == id);
            return Some(i);
        }
        assert(list.deep_view().skip(i as int).drop_first() =~= list.deep_view().skip(i + 1));
        i += 1;
    }
    None
}

/// Drops the notifications of an id.
pub(crate) fn drop_id(list: &mut Vec<Notification>, id: u32)
    ensures
        final(list).deep_view() == without(old(list).deep_view(), id),
{
    let ghost orig = list.deep_view();
    let ghost pred = |n: NotificationView| n.id != id;
    let mut i: usize = 0;
    let ghost mut p: int = 0;
    assert(orig.take(0).filter(pred) + orig.skip(0) =~= orig) by {
        reveal(Seq::filter);
    }
    while i < list.len()
        invariant
            i <= list@.len(),
            0 <= p <= orig.len(),
            pred == (|n: NotificationView| n.id != id),
            list.deep_view() == orig.take(p).filter(pred) + orig.skip(p),
            orig.take(p).filter(pred).len() == i,
            list@.len() - i == orig.len() - p,
        decreases list@.len() - i,
    {
        let ghost before = list.deep_view();
        assert(before[i as int] == orig[p]);
        assert(list@[i as int]@ == orig[p]);
        proof {
            lemma_filter_step(orig, p, pred);
        }
        if list[i].id == id {
            list.remove(i);
            assert(list.deep_view() =~= before.remove(i as int));
            assert(list.deep_view() =~= orig.take(p + 1).filter(pred) + orig.skip(p + 1));
        } else {
            i += 1;
            assert(list.deep_view() =~= orig.take(p + 1).filter(pred) + orig.skip(p + 1));
        }
        proof {
            p = p + 1;
        }
    }
    assert(orig.take(p) =~= orig);
    assert(list.deep_view() =~= orig.filter(pred));
}

/// Collects some ids into a set.
pub(crate) fn id_set(ids: &Vec<u32>) -> (set: HashSet<u32>)
    ensures
        forall|id: u32| set@.contains(id) == ids@.contains(id),
{
    let mut set: HashSet<u32> = HashSet::new();
    let mut i: usize = 0;
    while i < ids.len()
        invariant
            i <= ids@.len(),
            forall|id: u32| set@.contains(id) == ids@.take(i as int).contains(id),
        decreases ids@.len() - i,
    {
        let ghost before = set@;
        set.insert(ids[i]);
        proof {
            let less = ids@.take(i as int);
            let more = ids@.take(i + 1);
            assert forall|id: u32| set@.contains(id) == more.contains(id) by {
                if less.contains(id) {
                    let j = choose|j: int| 0 <= j < less.len() && less[j] == id;
                    assert(more[j] == id);
                }
                if more.contains(id) {
                    let j = choose|j: int| 0 <= j < more.len() && more[j] == id;
                    if j < less.len() {
                        assert(less[j] == id);
                    }
                }
                assert(more[i as int] == ids@[i as int]);
            }
        }
        i += 1;
    }
    assert(ids@.take(ids@.len() as int) =~= ids@);
    set
}

/// Drops the notifications of some ids.
pub(crate) fn drop_ids(
    list: &mut Vec<Notification>,
    set: &HashSet<u32>,
    ids: &Vec<u32>,
)
    requires
        forall|id: u32| set@.contains(id) == ids@.contains(id),
    ensures
        final(list).deep_view() == without_all(old(list).deep_view(), ids@),
{
    let ghost orig = list.deep_view();
    let ghost pred = |n: NotificationView| !ids@.contains(n.id);
    let mut i: usize = 0;
    let ghost mut p: int = 0;
    assert(orig.take(0).filter(pred) + orig.skip(0) =~= orig) by {
        reveal(Seq::filter);
    }
    while i < list.len()
        invariant
            i <= list@.len(),
            0 <= p <= orig.len(),
            forall|id: u32| set@.contains(id) == ids@.contains(id),
            pred == (|n: NotificationView| !ids@.contains(n.id)),
            list.deep_view() == orig.take(p).filter(pred) + orig.skip(p),
            orig.take(p).filter(pred).len() == i,
            list@.len() - i == orig.len() - p,
        decreases list@.len() - i,
    {
        let ghost before = list.deep_view();
        assert(before[i as int] == orig[p]);
        assert(list@[i as int]@ == orig[p]);
        proof {
            lemma_filter_step(orig, p, pred);
        }
        if set.contains(&list[i].id) {
            list.remove(i);
            assert(list.deep_view() =~= before.remove(i as int));
            assert(list.deep_view() =~= orig.take(p + 1).filter(pred) + orig.skip(p + 1));
        } else {
            i += 1;
            assert(list.deep_view() =~= orig.take(p + 1).filter(pred) + orig.skip(p + 1));
        }
        proof {
            p = p + 1;
        }
    }
    assert(orig.take(p) =~= orig);
    assert(list.deep_view() =~= orig.filter(pred));
}

/// Puts an incoming notification at the front of a list. A listed notification of the same
/// id is updated and moved; only a new id gets a new entry.
pub(crate) fn bring_to_front(list: &mut Vec<Notification>, incoming: &Notification)
    ensures
        final(list).deep_view() == fronted(old(list).deep_view(), incoming@),
{
    let ghost orig = list.deep_view();
    let entry = match position_of(list, incoming.id) {
        Some(i) => {
            let mut existing = list.remove(i);
            existing.update_from(incoming);
            existing.owner = crate::text::copy_optional(&incoming.owner);
            proof {
                lemma_without_remove(orig, i as int, incoming.id);
                assert(list.deep_view() =~= orig.remove(i as int));
            }
            existing
        },
        None => incoming.clone(),
    };
    assert(entry@ == incoming@);
    drop_id(list, incoming.id);
    list.insert(0, entry);
    assert(list.deep_view() =~= fronted(orig, incoming@));
}

proof fn lemma_without_remove(list: Seq<NotificationView>, at: int, id: u32)
    requires
        0 <= at < list.len(),
        list[at].id == id,
    ensures
        without(list.remove(at), id) == without(list, id),
{
    let pred = |n: NotificationView| n.id != id;
    let a = list.take(at);
    let b = list.skip(at + 1);
    assert(list.remove(at) =~= a + b);
    assert(list =~= a + seq![list[at]] + b);
    lemma_filter_add(a, b, pred);
    lemma_filter_add(a + seq![list[at]], b, pred);
    lemma_filter_add(a, seq![list[at]], pred);
    lemma_filter_shorter(seq![list[at]], pred);
    assert(!pred(seq![list[at]][0]));
    assert(a.filter(pred) + seq![list[at]].filter(pred) =~= a.filter(pred));
}

} // verus!
