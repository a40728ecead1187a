//! What holds of the notification lists across events.

use vstd::prelude::*;

use crate::lists::{first_with, fronted, has_id, only_all, unique_ids, without, without_all};
use crate::lists::{
    lemma_filter_add, lemma_filter_all, lemma_filter_members, lemma_filter_same,
    lemma_filter_shorter, lemma_filter_twice, lemma_filter_unique, lemma_without,
};
use crate::monitoring::{
    cancelled_timers, close_signal, close_signals, effects_of, effects_of_batch, effects_of_remove,
    expiry, ids_of, lemma_first_with, lemma_no_ids, lemma_without_fronted, popup_millis,
    state_after, still_listed,
};
use crate::monitoring::{EffectView, EventView, Settings, StateView};
use crate::notification::NotificationView;
use crate::owners::{after_settling, after_vanishing, has_app, reacted};
use crate::types::ClosedReason;

verus! {

/// Whether no id is listed twice, neither in the history nor among the popups.
pub open spec fn consistent(state: StateView) -> bool {
    unique_ids(state.notifications) && unique_ids(state.popups)
}

proof fn lemma_fronted_unique(list: Seq<NotificationView>, n: NotificationView)
    requires
        unique_ids(list),
    ensures
        unique_ids(fronted(list, n)),
{
    lemma_filter_unique(list, |m: NotificationView| m.id != n.id);
    lemma_without(list, n.id);
    let rest = without(list, n.id);
    let front = fronted(list, n);
    assert forall|i: int, j: int| 0 <= i < j < front.len() implies (#[trigger] front[i]).id != (
    #[trigger] front[j]).id by {
        assert(front[j] == rest[j - 1]);
        if i > 0 {
            assert(front[i] == rest[i - 1]);
        } else {
            assert(rest[j - 1].id != n.id);
        }
    }
}

/// The empty lists are consistent, and every event keeps the lists consistent: an id is
/// never listed twice.
pub proof fn law_ids_stay_unique(state: StateView, event: EventView, settings: Settings, now: int)
    ensures
        consistent(
            (StateView {
                notifications: seq![],
                popups: seq![],
                seen_notifications: seq![],
                seen_popups: seq![],
            }),
        ),
        consistent(state) ==> consistent(state_after(state, event, settings, now)),
{
    if consistent(state) {
        match event {
            EventView::Add(n) => {
                lemma_filter_unique(state.notifications, |m: NotificationView| m.id != n.id);
                lemma_fronted_unique(state.notifications, n);
                lemma_fronted_unique(state.popups, n);
            },
            EventView::Remove(id, reason) => {
                lemma_filter_unique(state.notifications, |m: NotificationView| m.id != id);
                lemma_filter_unique(state.popups, |m: NotificationView| m.id != id);
            },
            EventView::RemoveMany(ids, reason) => {
                lemma_filter_unique(
                    state.notifications,
                    |m: NotificationView| !ids.contains(m.id),
                );
                lemma_filter_unique(state.popups, |m: NotificationView| !ids.contains(m.id));
            },
        }
    }
}

/// A transient notification is never in the history after it arrived, whatever was there
/// before; the other entries stay, in their order.
pub proof fn law_transient_leaves_history(
    state: StateView,
    n: NotificationView,
    settings: Settings,
    now: int,
)
    requires
        n.is_transient,
    ensures
        ({
            let after = state_after(state, EventView::Add(n), settings, now);
            &&& !has_id(after.notifications, n.id)
            &&& after.notifications == without(state.notifications, n.id)
        }),
{
    lemma_without(state.notifications, n.id);
}

/// A notification that is neither transient nor already expired is the first of the
/// history as it arrived, and everything else keeps its order behind it.
pub proof fn law_arrival_comes_first(
    state: StateView,
    n: NotificationView,
    settings: Settings,
    now: int,
)
    requires
        !n.is_transient,
        expiry(n, settings.remove_expired) matches Some(end) ==> now < end,
    ensures
        ({
            let after = state_after(state, EventView::Add(n), settings, now);
            &&& after.notifications[0] == n
            &&& after.notifications.skip(1) == without(state.notifications, n.id)
            &&& first_with(after.notifications, n.id) == Some(n)
        }),
{
    let after = state_after(state, EventView::Add(n), settings, now);
    assert(after.notifications.skip(1) =~= without(state.notifications, n.id));
}

/// Replacing a listed notification neither adds nor loses an entry: the list keeps its
/// length and its set of ids.
pub proof fn law_replacing_keeps_the_entries(list: Seq<NotificationView>, n: NotificationView)
    requires
        unique_ids(list),
        has_id(list, n.id),
    ensures
        fronted(list, n).len() == list.len(),
        forall|id: u32| has_id(fronted(list, n), id) == has_id(list, id),
{
    lemma_without(list, n.id);
    lemma_without_one(list, n.id);
    let front = fronted(list, n);
    let rest = without(list, n.id);
    assert forall|id: u32| has_id(front, id) == has_id(list, id) by {
        if id == n.id {
            assert(front[0].id == id);
        } else {
            if has_id(front, id) {
                let i = choose|i: int| 0 <= i < front.len() && (#[trigger] front[i]).id == id;
                assert(rest[i - 1].id == id);
            }
            if has_id(rest, id) {
                let i = choose|i: int| 0 <= i < rest.len() && (#[trigger] rest[i]).id == id;
                assert(front[i + 1].id == id);
            }
        }
    }
}

proof fn lemma_without_one(list: Seq<NotificationView>, id: u32)
    requires
        unique_ids(list),
        has_id(list, id),
    ensures
        without(list, id).len() == list.len() - 1,
{
    let at = choose|i: int| 0 <= i < list.len() && (#[trigger] list[i]).id == id;
    let pred = |m: NotificationView| m.id != id;
    let a = list.take(at);
    let b = list.skip(at + 1);
    assert(list =~= a + seq![list[at]] + b);
    lemma_filter_add(a + seq![list[at]], b, pred);
    lemma_filter_add(a, seq![list[at]], pred);
    lemma_filter_shorter(seq![list[at]], pred);
    assert(!pred(seq![list[at]][0]));
    assert forall|i: int| 0 <= i < a.len() implies pred(#[trigger] a[i]) by {
        assert(list[i].id != list[at].id);
    }
    assert forall|i: int| 0 <= i < b.len() implies pred(#[trigger] b[i]) by {
        assert(list[at].id != list[at + 1 + i].id);
    }
    lemma_filter_all(a, pred);
    lemma_filter_all(b, pred);
}

/// Withdrawing a notification that just arrived leaves the lists as if it had never been
/// there, and without an older one of its id.
pub proof fn law_removal_undoes_arrival(
    state: StateView,
    n: NotificationView,
    settings: Settings,
    now: int,
    later: int,
    reason: ClosedReason,
)
    requires
        !(reason is Expired),
    ensures
        ({
            let added = state_after(state, EventView::Add(n), settings, now);
            let after = state_after(added, EventView::Remove(n.id, reason), settings, later);
            &&& after.notifications == without(state.notifications, n.id)
            &&& after.popups == without(state.popups, n.id)
        }),
{
    lemma_without_fronted(state.notifications, n);
    lemma_without_fronted(state.popups, n);
    lemma_without(state.notifications, n.id);
    lemma_without(without(state.notifications, n.id), n.id);
}

/// A removed notification is in no list, except that expiry leaves popups untouched.
pub proof fn law_removed_is_gone(
    state: StateView,
    id: u32,
    reason: ClosedReason,
    settings: Settings,
    now: int,
)
    ensures
        ({
            let after = state_after(state, EventView::Remove(id, reason), settings, now);
            &&& !has_id(after.notifications, id)
            &&& reason is Expired ==> after.popups == state.popups
            &&& !(reason is Expired) ==> !has_id(after.popups, id)
        }),
{
    lemma_without(state.notifications, id);
    lemma_without(state.popups, id);
}

/// The lists after removing some ids one after the other.
pub open spec fn removed_one_by_one(list: Seq<NotificationView>, ids: Seq<u32>) -> Seq<
    NotificationView,
>
    decreases ids.len(),
{
    if ids.len() == 0 {
        list
    } else {
        without(removed_one_by_one(list, ids.drop_last()), ids.last())
    }
}

/// Removing notifications in a batch leaves the lists that removing them one by one
/// leaves.
pub proof fn law_batch_is_one_by_one(list: Seq<NotificationView>, ids: Seq<u32>)
    ensures
        without_all(list, ids) == removed_one_by_one(list, ids),
    decreases ids.len(),
{
    let all = |m: NotificationView| !ids.contains(m.id);
    if ids.len() == 0 {
        lemma_filter_all(list, all);
    } else {
        let front = ids.drop_last();
        let last = ids.last();
        law_batch_is_one_by_one(list, front);
        let first = |m: NotificationView| !front.contains(m.id);
        let second = |m: NotificationView| m.id != last;
        lemma_filter_twice(list, first, second);
        let both = |m: NotificationView| first(m) && second(m);
        assert forall|i: int| 0 <= i < list.len() implies both(#[trigger] list[i]) == all(
            list[i],
        ) by {
            let id = list[i].id;
            if ids.contains(id) {
                let j = choose|j: int| 0 <= j < ids.len() && ids[j] == id;
                if j < front.len() {
                    assert(front[j] == id);
                }
            }
            if front.contains(id) {
                let j = choose|j: int| 0 <= j < front.len() && front[j] == id;
                assert(ids[j] == id);
            }
            assert(ids[ids.len() - 1] == last);
        }
        lemma_filter_same(list, both, all);
    }
}

/// A batch of one id is a removal of that id: the same lists, the same timer, the same
/// close signal; the store deletes the same notification.
pub proof fn law_batch_of_one(
    state: StateView,
    id: u32,
    reason: ClosedReason,
    settings: Settings,
    now: int,
)
    requires
        consistent(state),
    ensures
        ({
            let single = EventView::Remove(id, reason);
            let batch = EventView::RemoveMany(seq![id], reason);
            let one = effects_of(state, single, settings, now);
            let many = effects_of(state, batch, settings, now);
            &&& state_after(state, batch, settings, now) == state_after(
                state,
                single,
                settings,
                now,
            )
            &&& one.len() == many.len()
            &&& forall|i: int|
                0 <= i < one.len() ==> (#[trigger] many[i] == one[i] || (one[i]
                    == EffectView::StoreRemove(id) && many[i] == EffectView::StoreRemoveMany(
                    seq![id],
                )))
        }),
{
    let ids = seq![id];
    lemma_one_id(state.notifications, id);
    lemma_one_id(state.popups, id);
    let timers = cancelled_timers(ids, reason);
    if reason is Expired {
        assert(timers =~= seq![]);
    } else {
        assert(timers =~= seq![EffectView::CancelTimer(id)]);
    }
    lemma_first_with(state.notifications, id);
    let removed = only_all(state.notifications, ids);
    if has_id(state.notifications, id) {
        let n = first_with(state.notifications, id)->0;
        lemma_only_one(state.notifications, n);
        assert(removed =~= seq![n]);
        assert(ids_of(removed) =~= seq![id]);
        assert(seq![n].drop_last() =~= Seq::<NotificationView>::empty());
        reveal_with_fuel(close_signals, 2);
        assert(close_signals(removed, reason) =~= close_signal(n, reason));
    } else {
        lemma_filter_members(state.notifications, |m: NotificationView| ids.contains(m.id));
        if removed.len() > 0 {
            assert(state.notifications.contains(removed[0]));
            let j = choose|j: int|
                0 <= j < state.notifications.len() && state.notifications[j] == removed[0];
            assert(state.notifications[j].id == id);
        }
    }
}

proof fn lemma_one_id(list: Seq<NotificationView>, id: u32)
    ensures
        without_all(list, seq![id]) == without(list, id),
{
    let ids = seq![id];
    assert(ids[0] == id);
    lemma_filter_same(
        list,
        |m: NotificationView| !ids.contains(m.id),
        |m: NotificationView| m.id != id,
    );
}

proof fn lemma_only_one(list: Seq<NotificationView>, n: NotificationView)
    requires
        unique_ids(list),
        list.contains(n),
    ensures
        only_all(list, seq![n.id]) == seq![n],
{
    let ids = seq![n.id];
    let pred = |m: NotificationView| ids.contains(m.id);
    assert(ids[0] == n.id);
    let at = choose|i: int| 0 <= i < list.len() && list[i] == n;
    let a = list.take(at);
    let b = list.skip(at + 1);
    assert(list =~= a + seq![n] + b);
    lemma_filter_add(a + seq![n], b, pred);
    lemma_filter_add(a, seq![n], pred);
    lemma_filter_members(a, pred);
    lemma_filter_members(b, pred);
    if a.filter(pred).len() > 0 {
        let m = a.filter(pred)[0];
        assert(a.contains(m));
        let i = choose|i: int| 0 <= i < a.len() && a[i] == m;
        assert(list[i].id != list[at].id);
    }
    if b.filter(pred).len() > 0 {
        let m = b.filter(pred)[0];
        assert(b.contains(m));
        let i = choose|i: int| 0 <= i < b.len() && b[i] == m;
        assert(list[at].id != list[at + 1 + i].id);
    }
    assert(pred(seq![n][0]));
    lemma_filter_all(seq![n], pred);
    assert(only_all(list, ids) =~= seq![n]);
}

/// Close signals are never broadcast: each goes to the owner of a listed notification,
/// tells of that notification's id, and gives the reason of the event.
pub proof fn law_close_signals_are_directed(
    state: StateView,
    event: EventView,
    settings: Settings,
    now: int,
    at: int,
)
    requires
        0 <= at < effects_of(state, event, settings, now).len(),
        effects_of(state, event, settings, now)[at] is EmitClosed,
    ensures
        ({
            let signal = effects_of(state, event, settings, now)[at];
            &&& exists|i: int|
                0 <= i < state.notifications.len() && (#[trigger] state.notifications[i]).id
                    == signal->EmitClosed_id && state.notifications[i].owner == Some(
                    signal->EmitClosed_owner,
                )
            &&& match event {
                EventView::Add(n) => false,
                EventView::Remove(id, reason) => signal->EmitClosed_id == id
                    && signal->EmitClosed_reason == reason,
                EventView::RemoveMany(ids, reason) => ids.contains(signal->EmitClosed_id)
                    && signal->EmitClosed_reason == reason,
            }
        }),
{
    let list = state.notifications;
    let effects = effects_of(state, event, settings, now);
    match event {
        EventView::Add(n) => {},
        EventView::Remove(id, reason) => {
            lemma_first_with(list, id);
            let n = first_with(list, id)->0;
            assert(list.contains(n));
            let i = choose|i: int| 0 <= i < list.len() && list[i] == n;
            assert(list[i].id == id);
        },
        EventView::RemoveMany(ids, reason) => {
            let removed = only_all(list, ids);
            let timers = cancelled_timers(ids, reason);
            assert(removed.len() > 0);
            let k = at - timers.len() - 1;
            assert(effects[at] == close_signals(removed, reason)[k]);
            lemma_signal_of(removed, reason, k);
            let r = choose|r: int|
                0 <= r < removed.len() && close_signal(#[trigger] removed[r], reason) == seq![
                    close_signals(removed, reason)[k],
                ];
            let n = removed[r];
            assert(close_signal(n, reason)[0] == effects[at]);
            lemma_filter_members(list, |m: NotificationView| ids.contains(m.id));
            assert(list.contains(n));
            let i = choose|i: int| 0 <= i < list.len() && list[i] == n;
            assert(list[i].id == n.id);
        },
    }
}

proof fn lemma_signal_of(removed: Seq<NotificationView>, reason: ClosedReason, k: int)
    requires
        0 <= k < close_signals(removed, reason).len(),
    ensures
        exists|r: int|
            0 <= r < removed.len() && close_signal(#[trigger] removed[r], reason) == seq![
                close_signals(removed, reason)[k],
            ],
    decreases removed.len(),
{
    if removed.len() > 0 {
        let front = close_signals(removed.drop_last(), reason);
        if k < front.len() {
            lemma_signal_of(removed.drop_last(), reason, k);
            let r = choose|r: int|
                0 <= r < removed.drop_last().len() && close_signal(
                    #[trigger] removed.drop_last()[r],
                    reason,
                ) == seq![front[k]];
            assert(removed[r] == removed.drop_last()[r]);
        } else {
            let last = removed[removed.len() - 1];
            assert(close_signal(last, reason) =~= seq![close_signals(removed, reason)[k]]);
        }
    }
}

/// Whether something is to be done with the store.
pub open spec fn is_store_effect(effect: EffectView) -> bool {
    effect is StoreAdd || effect is StoreRemove || effect is StoreRemoveMany
}

/// A batch deletes from the store at most once, however many notifications it removes, and
/// deletes those that were listed; it does not touch the store when none was.
pub proof fn law_batch_deletes_once(
    state: StateView,
    ids: Seq<u32>,
    reason: ClosedReason,
    settings: Settings,
    now: int,
    at: int,
)
    requires
        0 <= at < effects_of(state, EventView::RemoveMany(ids, reason), settings, now).len(),
        is_store_effect(
            effects_of(state, EventView::RemoveMany(ids, reason), settings, now)[at],
        ),
    ensures
        at == cancelled_timers(ids, reason).len(),
        only_all(state.notifications, ids).len() > 0,
        effects_of(state, EventView::RemoveMany(ids, reason), settings, now)[at]
            == EffectView::StoreRemoveMany(ids_of(only_all(state.notifications, ids))),
{
    let effects = effects_of(state, EventView::RemoveMany(ids, reason), settings, now);
    let timers = cancelled_timers(ids, reason);
    let removed = only_all(state.notifications, ids);
    if at < timers.len() {
        assert(effects[at] == timers[at]);
    } else if at > timers.len() {
        let k = at - timers.len() - 1;
        assert(effects[at] == close_signals(removed, reason)[k]);
        lemma_signal_of(removed, reason, k);
        let r = choose|r: int|
            0 <= r < removed.len() && close_signal(#[trigger] removed[r], reason) == seq![
                close_signals(removed, reason)[k],
            ];
        assert(close_signal(removed[r], reason)[0] == effects[at]);
    }
}

/// The close signals among some effects.
pub open spec fn signals_among(effects: Seq<EffectView>) -> Seq<EffectView> {
    effects.filter(|effect: EffectView| effect is EmitClosed)
}

/// The notifications that some effects delete from the store.
pub open spec fn deleted_by(effects: Seq<EffectView>) -> Seq<u32>
    decreases effects.len(),
{
    if effects.len() == 0 {
        seq![]
    } else {
        let front = deleted_by(effects.drop_last());
        match effects.last() {
            EffectView::StoreRemove(id) => front.push(id),
            EffectView::StoreRemoveMany(ids) => front + ids,
            _ => front,
        }
    }
}

/// What follows from removing some ids one after the other.
pub open spec fn effects_one_by_one(
    history: Seq<NotificationView>,
    ids: Seq<u32>,
    reason: ClosedReason,
) -> Seq<EffectView>
    decreases ids.len(),
{
    if ids.len() == 0 {
        seq![]
    } else {
        effects_one_by_one(history, ids.drop_last(), reason) + effects_of_remove(
            removed_one_by_one(history, ids.drop_last()),
            ids.last(),
            reason,
        )
    }
}

/// Removing notifications in a batch tells the same owners of the same notifications, and
/// deletes the same rows, as removing them one by one; only the order may differ.
pub proof fn law_batch_does_what_single_removals_do(
    history: Seq<NotificationView>,
    ids: Seq<u32>,
    reason: ClosedReason,
)
    requires
        unique_ids(history),
    ensures
        signals_among(effects_of_batch(history, ids, reason)).to_multiset() == signals_among(
            effects_one_by_one(history, ids, reason),
        ).to_multiset(),
        deleted_by(effects_of_batch(history, ids, reason)).to_multiset() == deleted_by(
            effects_one_by_one(history, ids, reason),
        ).to_multiset(),
{
    lemma_batch_effects(history, ids, reason);
    lemma_one_by_one(history, ids, reason);
}

proof fn lemma_one_by_one(history: Seq<NotificationView>, ids: Seq<u32>, reason: ClosedReason)
    requires
        unique_ids(history),
    ensures
        signals_among(effects_one_by_one(history, ids, reason)).to_multiset() == close_signals(
            only_all(history, ids),
            reason,
        ).to_multiset(),
        deleted_by(effects_one_by_one(history, ids, reason)).to_multiset() == ids_of(
            only_all(history, ids),
        ).to_multiset(),
    decreases ids.len(),
{
    if ids.len() == 0 {
        lemma_no_ids(history, ids);
        assert(ids_of(only_all(history, ids)) =~= Seq::<u32>::empty());
        assert(close_signals(only_all(history, ids), reason) =~= Seq::<EffectView>::empty());
        lemma_only_signals(seq![]);
    } else {
        let front = ids.drop_last();
        assert(front.push(ids.last()) =~= ids);
        lemma_one_by_one(history, front, reason);
        lemma_single_step(history, front, ids.last(), reason);
        lemma_batch_step(history, front, ids.last(), reason);
    }
}

/// Removing one more id adds what its removal tells and deletes.
proof fn lemma_single_step(
    history: Seq<NotificationView>,
    ids: Seq<u32>,
    id: u32,
    reason: ClosedReason,
)
    ensures
        ({
            let before = effects_one_by_one(history, ids, reason);
            let after = effects_one_by_one(history, ids.push(id), reason);
            let last = first_with(without_all(history, ids), id);
            &&& signals_among(after).to_multiset() == signals_among(before).to_multiset().add(
                signal_of(last, reason).to_multiset(),
            )
            &&& deleted_by(after).to_multiset() == deleted_by(before).to_multiset().add(
                id_of(last).to_multiset(),
            )
        }),
{
    let more = ids.push(id);
    assert(more.drop_last() =~= ids);
    let left = removed_one_by_one(history, ids);
    let before = effects_one_by_one(history, ids, reason);
    let step = effects_of_remove(left, id, reason);
    assert(effects_one_by_one(history, more, reason) == before + step);
    law_batch_is_one_by_one(history, ids);
    lemma_remove_effects(left, id, reason);
    lemma_filter_add(before, step, |effect: EffectView| effect is EmitClosed);
    lemma_deleted_add(before, step);
    vstd::seq_lib::lemma_multiset_commutative(signals_among(before), signals_among(step));
    vstd::seq_lib::lemma_multiset_commutative(deleted_by(before), deleted_by(step));
}

/// The close signal of a notification that may not be listed.
pub open spec fn signal_of(n: Option<NotificationView>, reason: ClosedReason) -> Seq<EffectView> {
    match n {
        Some(n) => close_signal(n, reason),
        None => seq![],
    }
}

/// The id of a notification that may not be listed.
pub open spec fn id_of(n: Option<NotificationView>) -> Seq<u32> {
    match n {
        Some(n) => seq![n.id],
        None => seq![],
    }
}

/// A batch with one more id tells of, and deletes, what removing that id afterwards would.
proof fn lemma_batch_step(
    history: Seq<NotificationView>,
    ids: Seq<u32>,
    id: u32,
    reason: ClosedReason,
)
    requires
        unique_ids(history),
    ensures
        ({
            let fewer = only_all(history, ids);
            let removed = only_all(history, ids.push(id));
            let last = first_with(without_all(history, ids), id);
            &&& close_signals(removed, reason).to_multiset() == close_signals(
                fewer,
                reason,
            ).to_multiset().add(signal_of(last, reason).to_multiset())
            &&& ids_of(removed).to_multiset() == ids_of(fewer).to_multiset().add(
                id_of(last).to_multiset(),
            )
        }),
{
    let fewer = only_all(history, ids);
    let removed = only_all(history, ids.push(id));
    let last = first_with(without_all(history, ids), id);
    lemma_one_more_id(history, ids, id);
    if last is Some {
        let n = last->0;
        let (x, y) = choose|x: Seq<NotificationView>, y: Seq<NotificationView>|
            fewer == x + y && removed == #[trigger] (x + seq![n] + y);
        lemma_signals_add(x, y, reason);
        lemma_signals_add(x + seq![n], y, reason);
        lemma_signals_add(x, seq![n], reason);
        lemma_one_signal(n, reason);
        lemma_between(
            close_signals(x, reason),
            close_signal(n, reason),
            close_signals(y, reason),
        );
        assert(ids_of(fewer) =~= ids_of(x) + ids_of(y));
        assert(ids_of(removed) =~= ids_of(x) + seq![n.id] + ids_of(y));
        lemma_between(ids_of(x), seq![n.id], ids_of(y));
    } else {
        let told = close_signals(fewer, reason);
        vstd::seq_lib::lemma_multiset_commutative(told, Seq::<EffectView>::empty());
        assert(told + Seq::<EffectView>::empty() =~= told);
        vstd::seq_lib::lemma_multiset_commutative(ids_of(fewer), Seq::<u32>::empty());
        assert(ids_of(fewer) + Seq::<u32>::empty() =~= ids_of(fewer));
    }
}

proof fn lemma_one_signal(n: NotificationView, reason: ClosedReason)
    ensures
        close_signals(seq![n], reason) == close_signal(n, reason),
{
    reveal_with_fuel(close_signals, 2);
    assert(seq![n].drop_last() =~= Seq::<NotificationView>::empty());
    assert(close_signals(seq![n], reason) =~= close_signal(n, reason));
}

/// What stands between two parts counts as if it stood behind them.
proof fn lemma_between<A>(x: Seq<A>, m: Seq<A>, y: Seq<A>)
    ensures
        (x + m + y).to_multiset() == (x + y).to_multiset().add(m.to_multiset()),
{
    vstd::seq_lib::lemma_multiset_commutative(x, y);
    vstd::seq_lib::lemma_multiset_commutative(x + m, y);
    vstd::seq_lib::lemma_multiset_commutative(x, m);
    assert((x + m + y).to_multiset() =~= (x + y).to_multiset().add(m.to_multiset()));
}

/// A batch with one more id removes one more notification if it is listed and was not
/// removed already, and the same ones otherwise.
proof fn lemma_one_more_id(history: Seq<NotificationView>, ids: Seq<u32>, id: u32)
    requires
        unique_ids(history),
    ensures
        first_with(without_all(history, ids), id) matches Some(n) ==> n.id == id && exists|
            x: Seq<NotificationView>,
            y: Seq<NotificationView>,
        |
            only_all(history, ids) == x + y && only_all(history, ids.push(id)) == #[trigger] (x
                + seq![n] + y),
        first_with(without_all(history, ids), id) is None ==> only_all(history, ids.push(id))
            == only_all(history, ids),
{
    let more = ids.push(id);
    let left = without_all(history, ids);
    let old_pred = |m: NotificationView| ids.contains(m.id);
    let new_pred = |m: NotificationView| more.contains(m.id);
    let kept = |m: NotificationView| !ids.contains(m.id);
    lemma_first_with(left, id);
    lemma_filter_members(history, kept);
    assert forall|other: u32| more.contains(other) == (ids.contains(other) || other == id) by {
        if ids.contains(other) {
            let i = choose|i: int| 0 <= i < ids.len() && ids[i] == other;
            assert(more[i] == other);
        }
        assert(more[ids.len() as int] == id);
    }
    if first_with(left, id) is Some {
        let n = first_with(left, id)->0;
        let l = choose|l: int| 0 <= l < left.len() && left[l] == n;
        assert(history.contains(left[l]) && kept(left[l]));
        let at = choose|at: int| 0 <= at < history.len() && history[at] == n;
        let a = history.take(at);
        let b = history.skip(at + 1);
        assert(history =~= a + seq![n] + b);
        assert forall|i: int| 0 <= i < a.len() implies old_pred(#[trigger] a[i]) == new_pred(a[i]) by {
            assert(history[i].id != history[at].id);
        }
        assert forall|i: int| 0 <= i < b.len() implies old_pred(#[trigger] b[i]) == new_pred(b[i]) by {
            assert(history[at].id != history[at + 1 + i].id);
        }
        lemma_filter_same(a, old_pred, new_pred);
        lemma_filter_same(b, old_pred, new_pred);
        lemma_filter_add(a + seq![n], b, old_pred);
        lemma_filter_add(a, seq![n], old_pred);
        lemma_filter_add(a + seq![n], b, new_pred);
        lemma_filter_add(a, seq![n], new_pred);
        lemma_filter_shorter(seq![n], old_pred);
        assert(!old_pred(seq![n][0]));
        assert(new_pred(seq![n][0]));
        lemma_filter_all(seq![n], new_pred);
        let x = a.filter(old_pred);
        let y = b.filter(old_pred);
        assert(x + seq![n].filter(old_pred) =~= x);
        assert(only_all(history, ids) == x + y);
        assert(only_all(history, more) == x + seq![n] + y);
    } else {
        assert forall|i: int| 0 <= i < history.len() implies old_pred(#[trigger] history[i])
            == new_pred(history[i]) by {
            if history[i].id == id && !ids.contains(id) {
                assert(kept(history[i]));
                assert(left.contains(history[i]));
                let j = choose|j: int| 0 <= j < left.len() && left[j] == history[i];
                assert(left[j].id == id);
            }
        }
        lemma_filter_same(history, old_pred, new_pred);
    }
}

proof fn lemma_signals_add(
    a: Seq<NotificationView>,
    b: Seq<NotificationView>,
    reason: ClosedReason,
)
    ensures
        close_signals(a + b, reason) == close_signals(a, reason) + close_signals(b, reason),
    decreases b.len(),
{
    if b.len() == 0 {
        assert(a + b =~= a);
        assert(close_signals(a, reason) + close_signals(b, reason) =~= close_signals(a, reason));
    } else {
        lemma_signals_add(a, b.drop_last(), reason);
        assert((a + b).drop_last() =~= a + b.drop_last());
        assert(close_signals(a + b, reason) =~= close_signals(a, reason) + close_signals(b, reason));
    }
}

proof fn lemma_deleted_add(a: Seq<EffectView>, b: Seq<EffectView>)
    ensures
        deleted_by(a + b) == deleted_by(a) + deleted_by(b),
    decreases b.len(),
{
    if b.len() == 0 {
        assert(a + b =~= a);
        assert(deleted_by(a) + deleted_by(b) =~= deleted_by(a));
    } else {
        lemma_deleted_add(a, b.drop_last());
        assert((a + b).drop_last() =~= a + b.drop_last());
        assert(deleted_by(a + b) =~= deleted_by(a) + deleted_by(b));
    }
}

/// Effects that do not touch the store delete nothing.
proof fn lemma_nothing_deleted(effects: Seq<EffectView>)
    requires
        forall|i: int| 0 <= i < effects.len() ==> !is_store_effect(#[trigger] effects[i]),
    ensures
        deleted_by(effects) == Seq::<u32>::empty(),
    decreases effects.len(),
{
    if effects.len() > 0 {
        let front = effects.drop_last();
        assert forall|i: int| 0 <= i < front.len() implies !is_store_effect(
            #[trigger] front[i],
        ) by {
            assert(front[i] == effects[i]);
        }
        lemma_nothing_deleted(front);
        assert(!is_store_effect(effects[effects.len() - 1]));
    }
}

/// Effects that are no close signals hold none.
proof fn lemma_no_signal(effects: Seq<EffectView>)
    requires
        forall|i: int| 0 <= i < effects.len() ==> !((#[trigger] effects[i]) is EmitClosed),
    ensures
        signals_among(effects) == Seq::<EffectView>::empty(),
{
    let pred = |effect: EffectView| effect is EmitClosed;
    lemma_filter_members(effects, pred);
    let found = effects.filter(pred);
    if found.len() > 0 {
        assert(effects.contains(found[0]) && pred(found[0]));
    }
    assert(found =~= Seq::<EffectView>::empty());
}

/// Effects that are all close signals are kept, and delete nothing.
proof fn lemma_only_signals(effects: Seq<EffectView>)
    requires
        forall|i: int| 0 <= i < effects.len() ==> (#[trigger] effects[i]) is EmitClosed,
    ensures
        signals_among(effects) == effects,
        deleted_by(effects) == Seq::<u32>::empty(),
{
    lemma_filter_all(effects, |effect: EffectView| effect is EmitClosed);
    assert forall|i: int| 0 <= i < effects.len() implies !is_store_effect(#[trigger] effects[i]) by {
        assert(effects[i] is EmitClosed);
    }
    lemma_nothing_deleted(effects);
}

/// The effects of timers, one deletion and close signals, taken apart.
proof fn lemma_parts(timers: Seq<EffectView>, deletion: EffectView, told: Seq<EffectView>)
    requires
        forall|i: int| 0 <= i < timers.len() ==> (#[trigger] timers[i]) is CancelTimer,
        deletion is StoreRemove || deletion is StoreRemoveMany,
        forall|i: int| 0 <= i < told.len() ==> (#[trigger] told[i]) is EmitClosed,
    ensures
        signals_among(timers) == Seq::<EffectView>::empty(),
        deleted_by(timers) == Seq::<u32>::empty(),
        signals_among(timers + seq![deletion] + told) == told,
        deleted_by(timers + seq![deletion] + told) == (match deletion {
            EffectView::StoreRemove(id) => seq![id],
            EffectView::StoreRemoveMany(ids) => ids,
            _ => seq![],
        }),
{
    let pred = |effect: EffectView| effect is EmitClosed;
    let first = timers + seq![deletion];
    lemma_no_signal(timers);
    assert forall|i: int| 0 <= i < timers.len() implies !is_store_effect(#[trigger] timers[i]) by {
        assert(timers[i] is CancelTimer);
    }
    lemma_nothing_deleted(timers);
    lemma_no_signal(seq![deletion]);
    lemma_only_signals(told);
    lemma_filter_add(timers, seq![deletion], pred);
    lemma_filter_add(first, told, pred);
    lemma_deleted_add(timers, seq![deletion]);
    lemma_deleted_add(first, told);
    assert(seq![deletion].drop_last() =~= Seq::<EffectView>::empty());
    reveal_with_fuel(deleted_by, 2);
    assert(signals_among(first + told) =~= told);
    assert(deleted_by(first + told) =~= match deletion {
        EffectView::StoreRemove(id) => seq![id],
        EffectView::StoreRemoveMany(ids) => ids,
        _ => seq![],
    });
}

proof fn lemma_batch_effects(
    history: Seq<NotificationView>,
    ids: Seq<u32>,
    reason: ClosedReason,
)
    ensures
        signals_among(effects_of_batch(history, ids, reason)) == close_signals(
            only_all(history, ids),
            reason,
        ),
        deleted_by(effects_of_batch(history, ids, reason)) == ids_of(only_all(history, ids)),
{
    let removed = only_all(history, ids);
    let timers = cancelled_timers(ids, reason);
    let told = close_signals(removed, reason);
    assert forall|k: int| 0 <= k < told.len() implies (#[trigger] told[k]) is EmitClosed by {
        lemma_signal_of(removed, reason, k);
        let r = choose|r: int|
            0 <= r < removed.len() && close_signal(#[trigger] removed[r], reason) == seq![told[k]];
        assert(close_signal(removed[r], reason)[0] == told[k]);
    }
    lemma_parts(timers, EffectView::StoreRemoveMany(ids_of(removed)), told);
    if removed.len() == 0 {
        assert(ids_of(removed) =~= Seq::<u32>::empty());
    }
}

proof fn lemma_remove_effects(history: Seq<NotificationView>, id: u32, reason: ClosedReason)
    ensures
        signals_among(effects_of_remove(history, id, reason)) == signal_of(
            first_with(history, id),
            reason,
        ),
        deleted_by(effects_of_remove(history, id, reason)) == id_of(first_with(history, id)),
{
    let timers: Seq<EffectView> = if reason is Expired {
        seq![]
    } else {
        seq![EffectView::CancelTimer(id)]
    };
    lemma_first_with(history, id);
    lemma_parts(
        timers,
        EffectView::StoreRemove(id),
        signal_of(first_with(history, id), reason),
    );
}

/// An expiry is only ever scheduled for the notification that arrived, later than now, and
/// for the moment at which its timeout ends.
pub proof fn law_expiry_is_scheduled_on_time(
    state: StateView,
    event: EventView,
    settings: Settings,
    now: int,
    at: int,
)
    requires
        0 <= at < effects_of(state, event, settings, now).len(),
        effects_of(state, event, settings, now)[at] is ScheduleExpiry,
    ensures
        ({
            let scheduled = effects_of(state, event, settings, now)[at];
            &&& event matches EventView::Add(n) && scheduled->ScheduleExpiry_id == n.id && expiry(
                n,
                settings.remove_expired,
            ) == Some(now + scheduled->ScheduleExpiry_after_nanos)
            &&& scheduled->ScheduleExpiry_after_nanos > 0
        }),
{
    match event {
        EventView::Add(n) => {},
        EventView::Remove(id, reason) => {},
        EventView::RemoveMany(ids, reason) => {
            let removed = only_all(state.notifications, ids);
            let timers = cancelled_timers(ids, reason);
            let effects = effects_of(state, event, settings, now);
            if at < timers.len() {
                assert(effects[at] == timers[at]);
            } else if at > timers.len() {
                let k = at - timers.len() - 1;
                assert(effects[at] == close_signals(removed, reason)[k]);
                lemma_signal_of(removed, reason, k);
                let r = choose|r: int|
                    0 <= r < removed.len() && close_signal(#[trigger] removed[r], reason) == seq![
                        close_signals(removed, reason)[k],
                    ];
                assert(close_signal(removed[r], reason)[0] == effects[at]);
            }
        },
    }
}

/// "Do not disturb" shows nothing: the popups stay as they are and no timer is started.
pub proof fn law_do_not_disturb(state: StateView, n: NotificationView, settings: Settings, now: int)
    requires
        settings.dnd,
    ensures
        state_after(state, EventView::Add(n), settings, now).popups == state.popups,
        forall|i: int|
            0 <= i < effects_of(state, EventView::Add(n), settings, now).len()
                ==> !((#[trigger] effects_of(state, EventView::Add(n), settings, now)[i]) is StartTimer),
{
}

/// A popup is never shown longer than the default duration, and one whose timeout is zero
/// gets no timer.
pub proof fn law_popup_timer_is_bounded(n: NotificationView, popup_duration: u32)
    ensures
        popup_millis(n, popup_duration) matches Some(millis) ==> millis <= popup_duration,
        popup_millis(n, popup_duration) is None <==> n.expire_timeout == Some(0u32),
{
}

/// While it is found out whether a vanished application can be launched again, an event
/// leaves among the noted entries exactly those that it leaves listed: an entry that goes
/// is forgotten, and stays so whatever is listed under its id later; an entry that is
/// replaced in place is still the same.
pub proof fn law_noted_entries_stay_the_same(
    state: StateView,
    event: EventView,
    settings: Settings,
    now: int,
    id: u32,
)
    ensures
        ({
            let after = state_after(state, event, settings, now);
            &&& after.seen_notifications.contains(id) == (state.seen_notifications.contains(id)
                && has_id(after.notifications, id))
            &&& after.seen_popups.contains(id) == (state.seen_popups.contains(id) && has_id(
                after.popups,
                id,
            ))
        }),
{
    let after = state_after(state, event, settings, now);
    lemma_still_listed(state.seen_notifications, after.notifications, id);
    lemma_still_listed(state.seen_popups, after.popups, id);
}

proof fn lemma_still_listed(seen: Seq<u32>, list: Seq<NotificationView>, id: u32)
    ensures
        still_listed(seen, list).contains(id) == (seen.contains(id) && has_id(list, id)),
{
    let pred = |id: u32| has_id(list, id);
    lemma_filter_members(seen, pred);
    if seen.contains(id) && has_id(list, id) {
        let i = choose|i: int| 0 <= i < seen.len() && seen[i] == id;
        assert(pred(seen[i]));
    }
}

/// A notification that is removed and listed again under its id, while it is found out
/// whether its vanished application can be launched again, keeps its actions: it is not the
/// one that was listed when the application vanished.
pub proof fn law_listed_again_keeps_its_actions(
    state: StateView,
    n: NotificationView,
    reason: ClosedReason,
    settings: Settings,
    now: int,
    later: int,
    vanished: Seq<char>,
    activatable: Seq<Seq<char>>,
)
    ensures
        ({
            let removed = state_after(state, EventView::Remove(n.id, reason), settings, now);
            let listed = state_after(removed, EventView::Add(n), settings, later);
            let after = after_settling(listed, vanished, activatable);
            &&& has_id(listed.notifications, n.id) ==> after.notifications[0] == n
            &&& !(reason is Expired) && !settings.dnd ==> after.popups[0] == n
        }),
{
    let remove = EventView::Remove(n.id, reason);
    let removed = state_after(state, remove, settings, now);
    let listed = state_after(removed, EventView::Add(n), settings, later);
    law_noted_entries_stay_the_same(state, remove, settings, now, n.id);
    law_noted_entries_stay_the_same(removed, EventView::Add(n), settings, later, n.id);
    lemma_without(state.notifications, n.id);
    lemma_without(state.popups, n.id);
    assert(!removed.seen_notifications.contains(n.id));
    assert(!listed.seen_notifications.contains(n.id));
    if has_id(listed.notifications, n.id) {
        lemma_without(removed.notifications, n.id);
        assert(listed.notifications[0] == n);
    }
    if !(reason is Expired) && !settings.dnd {
        assert(!listed.seen_popups.contains(n.id));
        assert(listed.popups[0] == n);
    }
}

/// When nothing happens between the two steps, they strip what is said of each list alone.
pub proof fn law_settling_at_once(
    state: StateView,
    vanished: Seq<char>,
    activatable: Seq<Seq<char>>,
)
    requires
        has_app(state.notifications, vanished) || has_app(state.popups, vanished),
    ensures
        ({
            let after = after_settling(after_vanishing(state, vanished), vanished, activatable);
            &&& after.notifications == reacted(state.notifications, vanished, activatable)
            &&& after.popups == reacted(state.popups, vanished, activatable)
        }),
{
}

} // verus!
