//! What every event does to the lists, to the store, to the timers and on the bus.

use vstd::prelude::*;

use crate::lists::{first_with, fronted, has_id, only_all, unique_ids, without, without_all};
use crate::lists::{
    lemma_filter_add, lemma_filter_all, lemma_filter_members, lemma_filter_shorter, lemma_without,
};
use crate::monitoring::{
    close_signals, effects_of, effects_of_add, effects_of_popup, event_fits, history_after_add,
    ids_of, lemma_first_with, state_after, with_lists,
};
use crate::monitoring::{EffectView, EventView, Settings, StateView};
use crate::notification::{Notification, NotificationView};
use crate::owners::{
    after_settling, after_vanishing, app_is, has_app, must_strip, reconciled,
};
use crate::source::SourceView;
use crate::types::ClosedReason;
use crate::value::hints_view;

verus! {

/// Every arrival of a notification that is not transient is persisted, first of all and
/// once, whether or not its id is listed already, and deletes nothing. A transient one is
/// never persisted; it is deleted from the store exactly if its id was listed.
pub proof fn law_every_arrival_is_persisted(
    history: Seq<NotificationView>,
    n: NotificationView,
    remove_expired: bool,
    now: int,
)
    ensures
        ({
            let effects = effects_of_add(history, n, remove_expired, now);
            &&& !n.is_transient ==> effects.len() > 0 && effects[0] is StoreAdd
            &&& n.is_transient && has_id(history, n.id) ==> effects == seq![
                EffectView::StoreRemove(n.id),
            ]
            &&& n.is_transient && !has_id(history, n.id) ==> effects.len() == 0
            &&& !n.is_transient ==> forall|i: int|
                0 < i < effects.len() ==> !((#[trigger] effects[i]) is StoreAdd
                    || effects[i] is StoreRemove || effects[i] is StoreRemoveMany)
        }),
{
}

/// The same of the whole event: what an arrival asks of the store does not depend on the
/// popups.
pub proof fn law_arrival_reaches_the_store(
    state: StateView,
    n: NotificationView,
    settings: Settings,
    now: int,
)
    ensures
        ({
            let effects = effects_of(state, EventView::Add(n), settings, now);
            &&& effects.contains(EffectView::StoreAdd) == !n.is_transient
            &&& effects.contains(EffectView::StoreRemove(n.id)) == (n.is_transient && has_id(
                state.notifications,
                n.id,
            ))
            &&& forall|i: int|
                0 <= i < effects.len() ==> !((#[trigger] effects[i]) is StoreRemoveMany)
                    && !(effects[i] is CancelTimer) && !(effects[i] is EmitClosed)
        }),
{
    let effects = effects_of(state, EventView::Add(n), settings, now);
    law_every_arrival_is_persisted(state.notifications, n, settings.remove_expired, now);
    if !n.is_transient {
        assert(effects[0] is StoreAdd);
        assert(effects.contains(effects[0]));
    } else if has_id(state.notifications, n.id) {
        assert(effects[0] == EffectView::StoreRemove(n.id));
    }
}

/// A notification with a timeout expires by the clock, if expired ones are to leave: when
/// its time plus the timeout's milliseconds is over, it is not in the history at all, and
/// its removal is not scheduled; else its removal is scheduled for the rest of that time,
/// and it is the first of the history. Without a timeout, or if expired ones are to stay,
/// it is the first of the history and nothing is scheduled.
pub proof fn law_expiry_by_the_clock(
    history: Seq<NotificationView>,
    n: NotificationView,
    remove_expired: bool,
    now: int,
    timeout: u32,
)
    requires
        !n.is_transient,
    ensures
        ({
            let effects = effects_of_add(history, n, remove_expired, now);
            let after = history_after_add(history, n, remove_expired, now);
            let left = n.timestamp + timeout * 1_000_000 - now;
            let scheduled = EffectView::ScheduleExpiry { id: n.id, after_nanos: left };
            &&& remove_expired && n.expire_timeout == Some(timeout) && left > 0
                ==> effects.contains(scheduled) && after.len() > 0 && after[0] == n
            &&& remove_expired && n.expire_timeout == Some(timeout) && left <= 0 ==> !has_id(
                after,
                n.id,
            ) && effects == seq![EffectView::StoreAdd]
            &&& !remove_expired || n.expire_timeout is None ==> effects == seq![
                EffectView::StoreAdd,
            ] && after.len() > 0 && after[0] == n
        }),
{
    let effects = effects_of_add(history, n, remove_expired, now);
    lemma_without(history, n.id);
    if effects.len() == 2 {
        assert(effects.contains(effects[1]));
    }
}

/// Whatever arrives, the notifications of other ids stay in the history as they are, and
/// nothing else comes in.
pub proof fn law_arrival_leaves_the_others(
    history: Seq<NotificationView>,
    n: NotificationView,
    remove_expired: bool,
    now: int,
    other: NotificationView,
)
    requires
        other.id != n.id,
    ensures
        history_after_add(history, n, remove_expired, now).contains(other) == history.contains(
            other,
        ),
        fronted(history, n).contains(other) == history.contains(other),
        forall|i: int|
            0 <= i < history_after_add(history, n, remove_expired, now).len() && (
            #[trigger] history_after_add(history, n, remove_expired, now)[i]).id == n.id
                ==> history_after_add(history, n, remove_expired, now)[i] == n,
{
    let rest = without(history, n.id);
    let front = fronted(history, n);
    lemma_without(history, n.id);
    lemma_dropping(history, n.id, other);
    assert forall|i: int| 0 < i < front.len() implies #[trigger] front[i] == rest[i - 1] by {}
    if front.contains(other) {
        let i = choose|i: int| 0 <= i < front.len() && front[i] == other;
        assert(rest[i - 1] == other);
    }
    if rest.contains(other) {
        let i = choose|i: int| 0 <= i < rest.len() && rest[i] == other;
        assert(front[i + 1] == other);
    }
    let after = history_after_add(history, n, remove_expired, now);
    assert forall|i: int| 0 <= i < after.len() && (#[trigger] after[i]).id == n.id implies after[i]
        == n by {
        if after == rest {
            assert(has_id(rest, n.id));
        } else if i > 0 {
            assert(rest[i - 1].id == n.id);
        }
    }
}

proof fn lemma_dropping(list: Seq<NotificationView>, id: u32, n: NotificationView)
    ensures
        without(list, id).contains(n) == (list.contains(n) && n.id != id),
{
    let pred = |m: NotificationView| m.id != id;
    lemma_filter_members(list, pred);
    let rest = list.filter(pred);
    if rest.contains(n) {
        let i = choose|i: int| 0 <= i < rest.len() && rest[i] == n;
        assert(pred(rest[i]));
    }
    if list.contains(n) && n.id != id {
        let i = choose|i: int| 0 <= i < list.len() && list[i] == n;
        assert(pred(list[i]));
    }
}

/// Notifications are dropped entry by entry: of two parts of a list, what is left is what
/// is left of the first and then of the second, and an entry goes exactly if its id is
/// meant. So no other entry is lost, moved or changed; and what a batch takes out is what
/// it does not leave.
pub proof fn law_entries_are_dropped_one_by_one(
    a: Seq<NotificationView>,
    b: Seq<NotificationView>,
    n: NotificationView,
    id: u32,
    ids: Seq<u32>,
)
    ensures
        without(a + b, id) == without(a, id) + without(b, id),
        without(seq![n], id) == (if n.id == id {
            seq![]
        } else {
            seq![n]
        }),
        without_all(a + b, ids) == without_all(a, ids) + without_all(b, ids),
        without_all(seq![n], ids) == (if ids.contains(n.id) {
            seq![]
        } else {
            seq![n]
        }),
        only_all(a + b, ids) == only_all(a, ids) + only_all(b, ids),
        only_all(seq![n], ids) == (if ids.contains(n.id) {
            seq![n]
        } else {
            seq![]
        }),
{
    let one = |m: NotificationView| m.id != id;
    let some = |m: NotificationView| !ids.contains(m.id);
    let taken = |m: NotificationView| ids.contains(m.id);
    lemma_filter_add(a, b, one);
    lemma_filter_add(a, b, some);
    lemma_filter_add(a, b, taken);
    lemma_filter_one(n, one);
    lemma_filter_one(n, some);
    lemma_filter_one(n, taken);
}

proof fn lemma_filter_one<A>(x: A, pred: spec_fn(A) -> bool)
    ensures
        seq![x].filter(pred) == (if pred(x) {
            seq![x]
        } else {
            seq![]
        }),
{
    lemma_filter_shorter(seq![x], pred);
    if pred(x) {
        lemma_filter_all(seq![x], pred);
    } else {
        assert(!pred(seq![x][0]));
        assert(seq![x].filter(pred) =~= seq![]);
    }
}

/// The notification that is found by an id is the first in the list that has it.
pub proof fn law_first_found_is_first(list: Seq<NotificationView>, at: int, id: u32)
    requires
        0 <= at < list.len(),
        list[at].id == id,
        forall|i: int| 0 <= i < at ==> (#[trigger] list[i]).id != id,
    ensures
        first_with(list, id) == Some(list[at]),
    decreases list.len(),
{
    if at > 0 {
        assert(list[0].id != id);
        let rest = list.drop_first();
        assert forall|i: int| 0 <= i < at - 1 implies (#[trigger] rest[i]).id != id by {
            assert(list[i + 1].id != id);
        }
        law_first_found_is_first(rest, at - 1, id);
    }
}

/// Unless "do not disturb" is on, everything that arrives is the first popup, transient or
/// not, with the other popups behind it. Its timer runs for its own timeout or the default
/// duration, whichever is shorter; without a timeout for the default duration; with a
/// timeout of zero there is none. That is the only timer that is started.
pub proof fn law_everything_pops_up(
    state: StateView,
    n: NotificationView,
    settings: Settings,
    now: int,
    millis: u32,
)
    requires
        !settings.dnd,
    ensures
        ({
            let after = state_after(state, EventView::Add(n), settings, now);
            let effects = effects_of(state, EventView::Add(n), settings, now);
            let timer = EffectView::StartTimer { id: n.id, millis };
            &&& after.popups.len() > 0
            &&& after.popups[0] == n
            &&& after.popups.skip(1) == without(state.popups, n.id)
            &&& n.expire_timeout is None ==> effects.contains(timer) == (millis
                == settings.popup_duration)
            &&& n.expire_timeout == Some(0u32) ==> !effects.contains(timer)
            &&& n.expire_timeout is Some && n.expire_timeout->0 > 0 && n.expire_timeout->0
                <= settings.popup_duration ==> effects.contains(timer) == (millis
                == n.expire_timeout->0)
            &&& n.expire_timeout is Some && n.expire_timeout->0 > 0 && n.expire_timeout->0
                >= settings.popup_duration ==> effects.contains(timer) == (millis
                == settings.popup_duration)
            &&& forall|i: int|
                0 <= i < effects.len() && (#[trigger] effects[i]) is StartTimer
                    ==> effects[i]->StartTimer_id == n.id
        }),
{
    let after = state_after(state, EventView::Add(n), settings, now);
    let first = effects_of_add(state.notifications, n, settings.remove_expired, now);
    let second = effects_of_popup(n, settings.popup_duration, settings.dnd);
    let effects = effects_of(state, EventView::Add(n), settings, now);
    assert(after.popups.skip(1) =~= without(state.popups, n.id));
    assert forall|i: int| 0 <= i < first.len() implies !((#[trigger] first[i]) is StartTimer) by {}
    assert forall|i: int| 0 <= i < effects.len() implies #[trigger] effects[i] == (if i
        < first.len() {
        first[i]
    } else {
        second[i - first.len()]
    }) by {}
    if second.len() > 0 {
        assert(effects[first.len() as int] == second[0]);
    }
    let timer = EffectView::StartTimer { id: n.id, millis };
    if effects.contains(timer) {
        let i = choose|i: int| 0 <= i < effects.len() && effects[i] == timer;
        assert(i >= first.len());
    }
}

/// A removal cancels the timer of the popup unless the notification expired, deletes the
/// notification from the store exactly if it was listed, and tells its owner, if that is
/// known, why it was closed. Nothing is persisted, scheduled or started.
pub proof fn law_removal_tells_everyone(
    state: StateView,
    id: u32,
    reason: ClosedReason,
    settings: Settings,
    now: int,
    owner: Seq<char>,
)
    requires
        unique_ids(state.notifications),
    ensures
        ({
            let effects = effects_of(state, EventView::Remove(id, reason), settings, now);
            &&& effects.contains(EffectView::CancelTimer(id)) == !(reason is Expired)
            &&& effects.contains(EffectView::StoreRemove(id)) == has_id(state.notifications, id)
            &&& effects.contains(EffectView::EmitClosed { owner, id, reason }) == exists|i: int|
                0 <= i < state.notifications.len() && (#[trigger] state.notifications[i]).id == id
                    && state.notifications[i].owner == Some(owner)
            &&& forall|i: int|
                0 <= i < effects.len() ==> !((#[trigger] effects[i]) is StoreAdd)
                    && !(effects[i] is ScheduleExpiry) && !(effects[i] is StartTimer)
                    && !(effects[i] is StoreRemoveMany)
            &&& forall|i: int|
                0 <= i < effects.len() && (#[trigger] effects[i]) is CancelTimer ==> effects[i]
                    == EffectView::CancelTimer(id)
        }),
{
    let list = state.notifications;
    let effects = effects_of(state, EventView::Remove(id, reason), settings, now);
    let timers: Seq<EffectView> = if reason is Expired {
        seq![]
    } else {
        seq![EffectView::CancelTimer(id)]
    };
    lemma_first_with(list, id);
    if !(reason is Expired) {
        assert(effects[0] == EffectView::CancelTimer(id));
    }
    let signal = EffectView::EmitClosed { owner, id, reason };
    if has_id(list, id) {
        let n = first_with(list, id)->0;
        let at = choose|i: int| 0 <= i < list.len() && list[i] == n;
        assert(effects[timers.len() as int] == EffectView::StoreRemove(id));
        assert forall|i: int| 0 <= i < list.len() && (#[trigger] list[i]).id == id implies i
            == at by {
            if i < at {
                assert(list[i].id != list[at].id);
            } else if at < i {
                assert(list[at].id != list[i].id);
            }
        }
        if n.owner == Some(owner) {
            assert(effects[timers.len() as int + 1] == signal);
            assert(list[at].id == id);
        }
        if effects.contains(signal) {
            let i = choose|i: int| 0 <= i < effects.len() && effects[i] == signal;
            assert(i == timers.len() + 1);
        }
    } else {
        if effects.contains(signal) {
            let i = choose|i: int| 0 <= i < effects.len() && effects[i] == signal;
            assert(effects[i] == timers[i]);
        }
        if effects.contains(EffectView::StoreRemove(id)) {
            let i = choose|i: int|
                0 <= i < effects.len() && effects[i] == EffectView::StoreRemove(id);
            assert(effects[i] == timers[i]);
        }
    }
}

/// A removal leaves every notification of another id, in both lists, and adds none.
pub proof fn law_removal_leaves_the_others(
    state: StateView,
    id: u32,
    reason: ClosedReason,
    settings: Settings,
    now: int,
    n: NotificationView,
)
    ensures
        ({
            let after = state_after(state, EventView::Remove(id, reason), settings, now);
            &&& after.notifications.contains(n) == (state.notifications.contains(n) && n.id != id)
            &&& reason is Expired ==> after.popups == state.popups
            &&& !(reason is Expired) ==> after.popups.contains(n) == (state.popups.contains(n)
                && n.id != id)
        }),
{
    lemma_dropping(state.notifications, id, n);
    lemma_dropping(state.popups, id, n);
}

/// A batch removes exactly the notifications whose ids it names, from both lists, except
/// that expiry leaves popups untouched.
pub proof fn law_batch_removes_what_it_names(
    state: StateView,
    ids: Seq<u32>,
    reason: ClosedReason,
    settings: Settings,
    now: int,
    n: NotificationView,
)
    ensures
        ({
            let after = state_after(state, EventView::RemoveMany(ids, reason), settings, now);
            &&& after.notifications.contains(n) == (state.notifications.contains(n)
                && !ids.contains(n.id))
            &&& reason is Expired ==> after.popups == state.popups
            &&& !(reason is Expired) ==> after.popups.contains(n) == (state.popups.contains(n)
                && !ids.contains(n.id))
        }),
{
    lemma_dropping_all(state.notifications, ids, n);
    lemma_dropping_all(state.popups, ids, n);
}

proof fn lemma_dropping_all(list: Seq<NotificationView>, ids: Seq<u32>, n: NotificationView)
    ensures
        without_all(list, ids).contains(n) == (list.contains(n) && !ids.contains(n.id)),
        only_all(list, ids).contains(n) == (list.contains(n) && ids.contains(n.id)),
{
    let left = |m: NotificationView| !ids.contains(m.id);
    let taken = |m: NotificationView| ids.contains(m.id);
    lemma_filter_has(list, left, n);
    lemma_filter_has(list, taken, n);
}

proof fn lemma_filter_has<A>(list: Seq<A>, pred: spec_fn(A) -> bool, x: A)
    ensures
        list.filter(pred).contains(x) == (list.contains(x) && pred(x)),
{
    lemma_filter_members(list, pred);
    let kept = list.filter(pred);
    if kept.contains(x) {
        let i = choose|i: int| 0 <= i < kept.len() && kept[i] == x;
        assert(pred(kept[i]));
    }
    if list.contains(x) && pred(x) {
        let i = choose|i: int| 0 <= i < list.len() && list[i] == x;
        assert(pred(list[i]));
    }
}

/// A batch cancels the timer of every popup that it names, unless the notifications
/// expired; tells the owner of every listed notification that it names, if the owner is
/// known; and deletes from the store, in one go, exactly the listed ones among those that
/// it names.
pub proof fn law_batch_tells_everyone(
    state: StateView,
    ids: Seq<u32>,
    reason: ClosedReason,
    settings: Settings,
    now: int,
    id: u32,
    owner: Seq<char>,
)
    ensures
        ({
            let effects = effects_of(state, EventView::RemoveMany(ids, reason), settings, now);
            &&& effects.contains(EffectView::CancelTimer(id)) == (!(reason is Expired)
                && ids.contains(id))
            &&& effects.contains(EffectView::EmitClosed { owner, id, reason }) == (ids.contains(id)
                && exists|i: int|
                0 <= i < state.notifications.len() && (#[trigger] state.notifications[i]).id == id
                    && state.notifications[i].owner == Some(owner))
            &&& (exists|i: int|
                0 <= i < effects.len() && (#[trigger] effects[i]) is StoreRemoveMany
                    && effects[i]->StoreRemoveMany_0.contains(id)) == (ids.contains(id) && has_id(
                state.notifications,
                id,
            ))
        }),
{
    let list = state.notifications;
    let effects = effects_of(state, EventView::RemoveMany(ids, reason), settings, now);
    let removed = only_all(list, ids);
    let timers = crate::monitoring::cancelled_timers(ids, reason);
    let told = close_signals(removed, reason);
    let cancel = EffectView::CancelTimer(id);
    let signal = EffectView::EmitClosed { owner, id, reason };
    assert forall|k: int| 0 <= k < told.len() implies (#[trigger] told[k]) is EmitClosed by {
        lemma_told(removed, reason, told[k]);
        assert(told.contains(told[k]));
    }
    assert forall|i: int| 0 <= i < effects.len() implies #[trigger] effects[i] == (if i
        < timers.len() {
        timers[i]
    } else if i == timers.len() {
        EffectView::StoreRemoveMany(ids_of(removed))
    } else {
        told[i - timers.len() - 1]
    }) by {}
    if removed.len() > 0 {
        assert(effects[timers.len() as int] == EffectView::StoreRemoveMany(ids_of(removed)));
    }
    // The timers.
    if !(reason is Expired) && ids.contains(id) {
        let i = choose|i: int| 0 <= i < ids.len() && ids[i] == id;
        assert(timers[i] == cancel);
        assert(effects[i] == cancel);
    }
    if effects.contains(cancel) {
        let i = choose|i: int| 0 <= i < effects.len() && effects[i] == cancel;
        assert(i < timers.len());
        assert(ids[i] == id);
    }
    // The close signals.
    lemma_told(removed, reason, signal);
    if ids.contains(id) && exists|i: int|
        0 <= i < list.len() && (#[trigger] list[i]).id == id && list[i].owner == Some(owner) {
        let i = choose|i: int|
            0 <= i < list.len() && (#[trigger] list[i]).id == id && list[i].owner == Some(owner);
        assert(list.contains(list[i]));
        lemma_dropping_all(list, ids, list[i]);
        let r = choose|r: int| 0 <= r < removed.len() && removed[r] == list[i];
        assert(removed[r].owner == Some(owner) && removed[r].id == id);
        assert(told.contains(signal));
        let k = choose|k: int| 0 <= k < told.len() && told[k] == signal;
        assert(effects[timers.len() as int + 1 + k] == signal);
    }
    if effects.contains(signal) {
        let i = choose|i: int| 0 <= i < effects.len() && effects[i] == signal;
        assert(i > timers.len());
        assert(told[i - timers.len() - 1] == signal);
        assert(told.contains(signal));
        let r = choose|r: int|
            0 <= r < removed.len() && (#[trigger] removed[r]).owner == Some(owner) && removed[r].id
                == id;
        assert(removed.contains(removed[r]));
        lemma_dropping_all(list, ids, removed[r]);
        let j = choose|j: int| 0 <= j < list.len() && list[j] == removed[r];
        assert(list[j].id == id);
    }
    // The deletion.
    if ids.contains(id) && has_id(list, id) {
        let i = choose|i: int| 0 <= i < list.len() && (#[trigger] list[i]).id == id;
        assert(list.contains(list[i]));
        lemma_dropping_all(list, ids, list[i]);
        let r = choose|r: int| 0 <= r < removed.len() && removed[r] == list[i];
        assert(ids_of(removed)[r] == id);
        assert(effects[timers.len() as int]->StoreRemoveMany_0.contains(id));
    }
    if exists|i: int|
        0 <= i < effects.len() && (#[trigger] effects[i]) is StoreRemoveMany
            && effects[i]->StoreRemoveMany_0.contains(id) {
        let i = choose|i: int|
            0 <= i < effects.len() && (#[trigger] effects[i]) is StoreRemoveMany
                && effects[i]->StoreRemoveMany_0.contains(id);
        assert(i == timers.len());
        let r = choose|r: int| 0 <= r < ids_of(removed).len() && ids_of(removed)[r] == id;
        assert(removed.contains(removed[r]));
        lemma_dropping_all(list, ids, removed[r]);
        let j = choose|j: int| 0 <= j < list.len() && list[j] == removed[r];
        assert(list[j].id == id);
    }
}

proof fn lemma_told(removed: Seq<NotificationView>, reason: ClosedReason, effect: EffectView)
    ensures
        close_signals(removed, reason).contains(effect) ==> effect is EmitClosed
            && effect->EmitClosed_reason == reason && exists|r: int|
            0 <= r < removed.len() && (#[trigger] removed[r]).owner == Some(
                effect->EmitClosed_owner,
            ) && removed[r].id == effect->EmitClosed_id,
        effect is EmitClosed && effect->EmitClosed_reason == reason && (exists|r: int|
            0 <= r < removed.len() && (#[trigger] removed[r]).owner == Some(
                effect->EmitClosed_owner,
            ) && removed[r].id == effect->EmitClosed_id) ==> close_signals(
            removed,
            reason,
        ).contains(effect),
    decreases removed.len(),
{
    if removed.len() > 0 {
        let front = removed.drop_last();
        let last = removed.last();
        let fewer = close_signals(front, reason);
        let more = close_signals(removed, reason);
        let own = crate::monitoring::close_signal(last, reason);
        lemma_told(front, reason, effect);
        if more.contains(effect) {
            let k = choose|k: int| 0 <= k < more.len() && more[k] == effect;
            if k < fewer.len() {
                assert(fewer[k] == effect);
                assert(fewer.contains(effect));
                let r = choose|r: int|
                    0 <= r < front.len() && (#[trigger] front[r]).owner == Some(
                        effect->EmitClosed_owner,
                    ) && front[r].id == effect->EmitClosed_id;
                assert(removed[r] == front[r]);
            } else {
                assert(own[k - fewer.len()] == effect);
                assert(removed[removed.len() - 1] == last);
            }
        }
        if effect is EmitClosed && effect->EmitClosed_reason == reason && exists|r: int|
            0 <= r < removed.len() && (#[trigger] removed[r]).owner == Some(
                effect->EmitClosed_owner,
            ) && removed[r].id == effect->EmitClosed_id {
            let r = choose|r: int|
                0 <= r < removed.len() && (#[trigger] removed[r]).owner == Some(
                    effect->EmitClosed_owner,
                ) && removed[r].id == effect->EmitClosed_id;
            if r < front.len() {
                assert(front[r] == removed[r]);
                assert(fewer.contains(effect));
                let k = choose|k: int| 0 <= k < fewer.len() && fewer[k] == effect;
                assert(more[k] == effect);
            } else {
                assert(own[0] == effect);
                assert(more[fewer.len() as int] == effect);
            }
        }
    }
}

/// Hiding a popup takes it out of the popups alone: the history and every other popup stay.
pub proof fn law_hiding_leaves_the_history(state: StateView, id: u32, n: NotificationView)
    ensures
        ({
            let after = with_lists(state, state.notifications, without(state.popups, id));
            &&& after.notifications == state.notifications
            &&& after.popups.contains(n) == (state.popups.contains(n) && n.id != id)
        }),
{
    lemma_dropping(state.popups, id, n);
}

/// Whether a notification is another one but for its actions, of which it has none.
pub open spec fn only_lost_its_actions(after: NotificationView, before: NotificationView) -> bool {
    &&& after.actions.len() == 0
    &&& after.default_action is None
    &&& before == NotificationView {
        actions: before.actions,
        default_action: before.default_action,
        ..after
    }
}

/// Held against the names on the bus, a freedesktop notification keeps its actions exactly
/// if its owner is known and connected; a GTK notification exactly if its application runs
/// or can be launched. Those that do not keep their actions lose nothing else, and the
/// lists keep their order.
pub proof fn law_unreachable_targets_lose_their_actions(
    list: Seq<NotificationView>,
    live: Seq<Seq<char>>,
    activatable: Seq<Seq<char>>,
    at: int,
)
    requires
        0 <= at < list.len(),
    ensures
        ({
            let after = reconciled(list, live, activatable);
            let n = list[at];
            &&& after.len() == list.len()
            &&& n.source is Freedesktop && n.owner is None ==> only_lost_its_actions(after[at], n)
            &&& n.source is Freedesktop && n.owner is Some && live.contains(n.owner->0)
                ==> after[at] == n
            &&& n.source is Freedesktop && n.owner is Some && !live.contains(n.owner->0)
                ==> only_lost_its_actions(after[at], n)
            &&& n.source matches SourceView::Gtk(dispatch) ==> if live.contains(dispatch.app_id)
                || activatable.contains(dispatch.app_id) {
                after[at] == n
            } else {
                only_lost_its_actions(after[at], n)
            }
        }),
{
    assert(reconciled(list, live, activatable)[at].actions =~= if must_strip(
        list[at],
        live,
        activatable,
    ) {
        seq![]
    } else {
        list[at].actions
    });
}

/// When a name vanishes, a freedesktop notification loses its actions at once exactly if
/// the name was its owner. A GTK notification keeps them for now.
pub proof fn law_vanished_owner_takes_the_actions(state: StateView, vanished: Seq<char>, at: int)
    ensures
        ({
            let after = after_vanishing(state, vanished);
            &&& after.notifications.len() == state.notifications.len()
            &&& after.popups.len() == state.popups.len()
            &&& 0 <= at < state.notifications.len() ==> {
                let n = state.notifications[at];
                if n.source is Freedesktop && n.owner == Some(vanished) {
                    only_lost_its_actions(after.notifications[at], n)
                } else {
                    after.notifications[at] == n
                }
            }
            &&& 0 <= at < state.popups.len() ==> {
                let n = state.popups[at];
                if n.source is Freedesktop && n.owner == Some(vanished) {
                    only_lost_its_actions(after.popups[at], n)
                } else {
                    after.popups[at] == n
                }
            }
        }),
{
}

/// Once it is known what can be launched, a GTK notification loses its actions exactly if
/// its application is the one that vanished, that cannot be launched, and the notification
/// was listed when the application vanished and ever since. Everything else stays.
pub proof fn law_vanished_app_takes_the_actions(
    state: StateView,
    vanished: Seq<char>,
    activatable: Seq<Seq<char>>,
    at: int,
)
    ensures
        ({
            let after = after_settling(state, vanished, activatable);
            &&& after.notifications.len() == state.notifications.len()
            &&& after.popups.len() == state.popups.len()
            &&& 0 <= at < state.notifications.len() ==> {
                let n = state.notifications[at];
                if !activatable.contains(vanished) && state.seen_notifications.contains(n.id) && (
                n.source matches SourceView::Gtk(dispatch) && dispatch.app_id == vanished) {
                    only_lost_its_actions(after.notifications[at], n)
                } else {
                    after.notifications[at] == n
                }
            }
            &&& 0 <= at < state.popups.len() ==> {
                let n = state.popups[at];
                if !activatable.contains(vanished) && state.seen_popups.contains(n.id) && (
                n.source matches SourceView::Gtk(dispatch) && dispatch.app_id == vanished) {
                    only_lost_its_actions(after.popups[at], n)
                } else {
                    after.popups[at] == n
                }
            }
        }),
{
}

/// When an application that has notifications vanishes, every entry that is listed then is
/// noted, of whichever application it is, and nothing else.
pub proof fn law_vanishing_notes_what_is_listed(
    state: StateView,
    vanished: Seq<char>,
    at: int,
    id: u32,
)
    requires
        0 <= at < state.notifications.len(),
        state.notifications[at].source matches SourceView::Gtk(dispatch) && dispatch.app_id
            == vanished,
    ensures
        after_vanishing(state, vanished).seen_notifications.contains(id) == has_id(
            state.notifications,
            id,
        ),
        after_vanishing(state, vanished).seen_popups.contains(id) == has_id(state.popups, id),
{
    let after = after_vanishing(state, vanished);
    assert(app_is(state.notifications[at], vanished));
    lemma_ids_listed(state.notifications, id);
    lemma_ids_listed(state.popups, id);
}

proof fn lemma_ids_listed(list: Seq<NotificationView>, id: u32)
    ensures
        ids_of(list).contains(id) == has_id(list, id),
{
    if ids_of(list).contains(id) {
        let i = choose|i: int| 0 <= i < ids_of(list).len() && ids_of(list)[i] == id;
        assert(list[i].id == id);
    }
    if has_id(list, id) {
        let i = choose|i: int| 0 <= i < list.len() && (#[trigger] list[i]).id == id;
        assert(ids_of(list)[i] == id);
    }
}

/// An event can be handled whatever it is, except for the arrival of a notification that is
/// to expire at a time that is no date.
pub proof fn law_only_an_endless_timeout_does_not_fit(event: EventView, settings: Settings)
    ensures
        !(event is Add) ==> event_fits(event, settings),
        event matches EventView::Add(n) ==> (n.is_transient || !settings.remove_expired
            || n.expire_timeout is None ==> event_fits(event, settings)),
        event matches EventView::Add(n) ==> (!n.is_transient && settings.remove_expired
            && n.expire_timeout is Some ==> event_fits(event, settings) == crate::time::is_time(
            n.timestamp + n.expire_timeout->0 * 1_000_000,
        )),
{
}

/// Nothing is done twice. An arrival asks at most for one thing of the store, one expiry
/// and one timer; a removal for one timer, one deletion and one signal to a known owner; a
/// batch for one timer per id, one deletion, and one signal per removed notification with
/// an owner.
pub proof fn law_nothing_is_done_twice(
    state: StateView,
    n: NotificationView,
    id: u32,
    ids: Seq<u32>,
    reason: ClosedReason,
    settings: Settings,
    now: int,
)
    ensures
        effects_of_add(state.notifications, n, settings.remove_expired, now).len() <= 2,
        effects_of_popup(n, settings.popup_duration, settings.dnd).len() <= 1,
        effects_of(state, EventView::Add(n), settings, now) == effects_of_add(
            state.notifications,
            n,
            settings.remove_expired,
            now,
        ) + effects_of_popup(n, settings.popup_duration, settings.dnd),
        effects_of(state, EventView::Remove(id, reason), settings, now).len() == (
        if reason is Expired {
            0int
        } else {
            1
        }) + (match first_with(state.notifications, id) {
            Some(found) => if found.owner is Some {
                2int
            } else {
                1
            },
            None => 0,
        }),
        effects_of(state, EventView::RemoveMany(ids, reason), settings, now).len() == (
        if reason is Expired {
            0
        } else {
            ids.len()
        }) + (if only_all(state.notifications, ids).len() > 0 {
            1int
        } else {
            0
        }) + only_all(state.notifications, ids).filter(
            |found: NotificationView| found.owner is Some,
        ).len(),
{
    let removed = only_all(state.notifications, ids);
    lemma_signal_count(removed, reason);
    if removed.len() == 0 {
        lemma_filter_shorter(removed, |found: NotificationView| found.owner is Some);
    }
}

proof fn lemma_signal_count(removed: Seq<NotificationView>, reason: ClosedReason)
    ensures
        close_signals(removed, reason).len() == removed.filter(
            |found: NotificationView| found.owner is Some,
        ).len(),
    decreases removed.len(),
{
    reveal(Seq::filter);
    if removed.len() > 0 {
        lemma_signal_count(removed.drop_last(), reason);
    }
}

/// The actions of a freedesktop notification are to go exactly if its owner is unknown or
/// not connected; those of a GTK notification exactly if its application neither runs nor
/// can be launched.
pub proof fn law_actions_go_with_their_target(
    n: NotificationView,
    live: Seq<Seq<char>>,
    activatable: Seq<Seq<char>>,
)
    ensures
        n.source is Freedesktop ==> must_strip(n, live, activatable) == !(n.owner matches Some(
            owner,
        ) && live.contains(owner)),
        n.source matches SourceView::Gtk(dispatch) ==> must_strip(n, live, activatable) == !(
        live.contains(dispatch.app_id) || activatable.contains(dispatch.app_id)),
{
}

/// A name counts as an application's as soon as one GTK notification of it is listed, be it
/// in the history or as a popup; then every listed entry is noted. If there is none, nothing
/// is noted.
pub proof fn law_any_listed_notification_counts(
    state: StateView,
    vanished: Seq<char>,
    at: int,
    id: u32,
)
    ensures
        0 <= at < state.popups.len() && (state.popups[at].source matches SourceView::Gtk(dispatch)
            && dispatch.app_id == vanished) ==> has_app(state.popups, vanished)
            && after_vanishing(state, vanished).seen_popups.contains(id) == has_id(
            state.popups,
            id,
        ) && after_vanishing(state, vanished).seen_notifications.contains(id) == has_id(
            state.notifications,
            id,
        ),
        0 <= at < state.notifications.len() && (
        state.notifications[at].source matches SourceView::Gtk(dispatch) && dispatch.app_id
            == vanished) ==> has_app(state.notifications, vanished),
        has_app(state.notifications, vanished) ==> exists|i: int|
            0 <= i < state.notifications.len() && ((
            #[trigger] state.notifications[i]).source matches SourceView::Gtk(dispatch)
                && dispatch.app_id == vanished),
        !has_app(state.notifications, vanished) && !has_app(state.popups, vanished)
            ==> after_vanishing(state, vanished).seen_notifications.len() == 0
            && after_vanishing(state, vanished).seen_popups.len() == 0,
{
    lemma_ids_listed(state.notifications, id);
    lemma_ids_listed(state.popups, id);
    if 0 <= at < state.popups.len() && app_is(state.popups[at], vanished) {
        assert(has_app(state.popups, vanished));
    }
    if 0 <= at < state.notifications.len() && app_is(state.notifications[at], vanished) {
        assert(has_app(state.notifications, vanished));
    }
}

/// A notification denotes what it holds.
pub proof fn law_a_notification_denotes_its_fields(n: Notification)
    ensures
        n@.id == n.id,
        n@.app_name == n.app_name.deep_view(),
        n@.replaces_id == n.replaces_id,
        n@.app_icon == n.app_icon.deep_view(),
        n@.summary == n.summary@,
        n@.body == n.body.deep_view(),
        n@.actions == n.actions.deep_view(),
        n@.default_action == n.default_action.deep_view(),
        n.hints matches Some(hints) ==> n@.hints == Some(hints_view(hints)),
        n.hints is None ==> n@.hints is None,
        n@.image_path == n.image_path.deep_view(),
        n@.expire_timeout == n.expire_timeout,
        n@.timestamp == n.timestamp@,
        n@.owner == n.owner.deep_view(),
        n@.source == n.source@,
        n@.is_transient == n.is_transient,
{
}

} // verus!
