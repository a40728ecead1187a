//! What happens to the notification lists when an event arrives, and what is to be done
//! outside of them as a consequence.

use vstd::prelude::*;

use crate::lists::{bring_to_front, drop_id, drop_ids, position_of};
use crate::lists::{first_with, fronted, has_id, only_all, without, without_all};
use crate::lists::{
    lemma_filter_add, lemma_filter_all, lemma_filter_members, lemma_filter_shorter,
    lemma_filter_step, lemma_without,
};
use crate::notification::{Notification, NotificationView};
use crate::time::Timestamp;
use crate::types::ClosedReason;

verus! {

/// An event of the notification service.
pub enum NotificationEvent {
    /// A notification arrived.
    Add(Box<Notification>),
    /// A notification goes away.
    Remove(u32, ClosedReason),
    /// Batch removal of several notifications in one atomic pass ("clear all" / clearing
    /// a group), so the store delete and the list update happen once instead of once per
    /// notification.
    RemoveMany(Vec<u32>, ClosedReason),
}

/// Something to be done as a consequence of an event.
pub enum Effect {
    /// Persist the notification that arrived.
    StoreAdd,
    /// Delete a persisted notification.
    StoreRemove(u32),
    /// Delete several persisted notifications at once.
    StoreRemoveMany(Vec<u32>),
    /// Remove a notification as expired after some time.
    ScheduleExpiry {
        /// The notification.
        id: u32,
        /// Nanoseconds from now.
        after_nanos: u128,
    },
    /// Start, or restart, the timer of a popup.
    StartTimer {
        /// The popup.
        id: u32,
        /// Milliseconds that the popup is shown.
        millis: u32,
    },
    /// Cancel the timer of a popup.
    CancelTimer(u32),
    /// Emit `NotificationClosed`, directed to the owning connection.
    EmitClosed {
        /// Unique bus name that the signal is directed to.
        owner: String,
        /// The notification.
        id: u32,
        /// Why it was closed.
        reason: ClosedReason,
    },
}

/// What an [`Effect`] denotes.
pub enum EffectView {
    /// Persist the notification that arrived.
    StoreAdd,
    /// Delete a persisted notification.
    StoreRemove(u32),
    /// Delete several persisted notifications at once.
    StoreRemoveMany(Seq<u32>),
    /// Remove a notification as expired after some time.
    ScheduleExpiry {
        /// The notification.
        id: u32,
        /// Nanoseconds from now.
        after_nanos: int,
    },
    /// Start, or restart, the timer of a popup.
    StartTimer {
        /// The popup.
        id: u32,
        /// Milliseconds that the popup is shown.
        millis: u32,
    },
    /// Cancel the timer of a popup.
    CancelTimer(u32),
    /// Emit `NotificationClosed`.
    EmitClosed {
        /// Unique bus name that the signal is directed to.
        owner: Seq<char>,
        /// The notification.
        id: u32,
        /// Why it was closed.
        reason: ClosedReason,
    },
}

impl View for Effect {
    type V = EffectView;

    open spec fn view(&self) -> EffectView {
        match self {
            Effect::StoreAdd => EffectView::StoreAdd,
            Effect::StoreRemove(id) => EffectView::StoreRemove(*id),
            Effect::StoreRemoveMany(ids) => EffectView::StoreRemoveMany(ids@),
            Effect::ScheduleExpiry { id, after_nanos } => EffectView::ScheduleExpiry {
                id: *id,
                after_nanos: *after_nanos as int,
            },
            Effect::StartTimer { id, millis } => EffectView::StartTimer {
                id: *id,
                millis: *millis,
            },
            Effect::CancelTimer(id) => EffectView::CancelTimer(*id),
            Effect::EmitClosed { owner, id, reason } => EffectView::EmitClosed {
                owner: owner@,
                id: *id,
                reason: *reason,
            },
        }
    }
}

impl DeepView for Effect {
    type V = EffectView;

    open spec fn deep_view(&self) -> EffectView {
        self@
    }
}

/// When a notification expires, in nanoseconds since the Unix epoch, if it does.
pub open spec fn expiry(n: NotificationView, remove_expired: bool) -> Option<int> {
    if remove_expired && n.expire_timeout is Some {
        Some(crate::time::expiry_of(n.timestamp, n.expire_timeout->0))
    } else {
        None
    }
}

/// Whether the expiry of an incoming notification is a date.
pub open spec fn expiry_fits(n: NotificationView, remove_expired: bool) -> bool {
    !n.is_transient && remove_expired && n.expire_timeout is Some ==> crate::time::can_expire(
        n.timestamp,
        n.expire_timeout->0,
    )
}

/// The history after a notification arrived: without it when it is transient or already
/// expired, else with it at the front.
pub open spec fn history_after_add(
    history: Seq<NotificationView>,
    n: NotificationView,
    remove_expired: bool,
    now: int,
) -> Seq<NotificationView> {
    if n.is_transient {
        without(history, n.id)
    } else if expiry(n, remove_expired) is Some && expiry(n, remove_expired)->0 <= now {
        without(history, n.id)
    } else {
        fronted(history, n)
    }
}

/// What follows for the store and the clock when a notification arrived: a transient one
/// leaves the store if it was listed; any other is stored, and its removal is scheduled if
/// it expires later.
pub open spec fn effects_of_add(
    history: Seq<NotificationView>,
    n: NotificationView,
    remove_expired: bool,
    now: int,
) -> Seq<EffectView> {
    if n.is_transient {
        if has_id(history, n.id) {
            seq![EffectView::StoreRemove(n.id)]
        } else {
            seq![]
        }
    } else if expiry(n, remove_expired) is Some && expiry(n, remove_expired)->0 > now {
        seq![
            EffectView::StoreAdd,
            EffectView::ScheduleExpiry {
                id: n.id,
                after_nanos: expiry(n, remove_expired)->0 - now,
            },
        ]
    } else {
        seq![EffectView::StoreAdd]
    }
}

/// Adds an incoming notification to the history at a given time.
///
/// Transient notifications are not kept in history. If a notification is flipped to
/// transient over an existing id, the stale history entry is dropped. A listed
/// notification of the same id is updated in place and moved to the front.
pub fn handle_notification_added_at(
    incoming_notif: &Notification,
    notifications: &mut Vec<Notification>,
    remove_expired: bool,
    now: Timestamp,
) -> (effects: Vec<Effect>)
    requires
        expiry_fits(incoming_notif@, remove_expired),
    ensures
        final(notifications).deep_view() == history_after_add(
            old(notifications).deep_view(),
            incoming_notif@,
            remove_expired,
            now@,
        ),
        effects.deep_view() == effects_of_add(
            old(notifications).deep_view(),
            incoming_notif@,
            remove_expired,
            now@,
        ),
{
    let ghost history = notifications.deep_view();
    let ghost n = incoming_notif@;
    let mut effects: Vec<Effect> = Vec::new();

    if incoming_notif.is_transient {
        proof {
            lemma_without(history, n.id);
        }
        if position_of(notifications, incoming_notif.id).is_some() {
            drop_id(notifications, incoming_notif.id);
            effects.push(Effect::StoreRemove(incoming_notif.id));
        }
        assert(effects.deep_view() =~= effects_of_add(history, n, remove_expired, now@));
        return effects;
    }

    bring_to_front(notifications, incoming_notif);
    effects.push(Effect::StoreAdd);
    assert(effects.deep_view() =~= seq![EffectView::StoreAdd]);

    if !remove_expired {
        return effects;
    }
    let ttl = match incoming_notif.expire_timeout {
        Some(ttl) => ttl,
        None => {
            return effects;
        },
    };

    let expiration_time: i128 = crate::time::expiry_nanos(incoming_notif.timestamp, ttl);
    let current: i128 = now.nanos();
    if expiration_time <= current {
        drop_id(notifications, incoming_notif.id);
        proof {
            lemma_without_fronted(history, n);
        }
        return effects;
    }

    effects.push(
        Effect::ScheduleExpiry {
            id: incoming_notif.id,
            after_nanos: (expiration_time - current) as u128,
        },
    );
    assert(effects.deep_view() =~= effects_of_add(history, n, remove_expired, now@));
    effects
}

/// Adds an incoming notification to the history at the current time.
pub fn handle_notification_added(
    incoming_notif: &Notification,
    notifications: &mut Vec<Notification>,
    remove_expired: bool,
) -> (effects: Vec<Effect>)
    requires
        expiry_fits(incoming_notif@, remove_expired),
    ensures
        exists|now: int|
            #![trigger history_after_add(
                old(notifications).deep_view(),
                incoming_notif@,
                remove_expired,
                now,
            )]
            crate::time::is_time(now) && final(notifications).deep_view() == history_after_add(
                old(notifications).deep_view(),
                incoming_notif@,
                remove_expired,
                now,
            ) && effects.deep_view() == effects_of_add(
                old(notifications).deep_view(),
                incoming_notif@,
                remove_expired,
                now,
            ),
{
    let now = Timestamp::now();
    handle_notification_added_at(incoming_notif, notifications, remove_expired, now)
}

/// Dropping the fronted notification leaves the rest.
pub proof fn lemma_without_fronted(list: Seq<NotificationView>, n: NotificationView)
    ensures
        without(fronted(list, n), n.id) == without(list, n.id),
{
    let pred = |m: NotificationView| m.id != n.id;
    lemma_filter_add(seq![n], list.filter(pred), pred);
    lemma_filter_shorter(seq![n], pred);
    assert(!pred(seq![n][0]));
    lemma_without(list, n.id);
    lemma_without(without(list, n.id), n.id);
    assert(seq![n].filter(pred) + list.filter(pred).filter(pred) =~= list.filter(pred));
}

/// The popups after a notification arrived: unchanged under "do not disturb", else with
/// the notification at the front.
pub open spec fn popups_after_add(
    popups: Seq<NotificationView>,
    n: NotificationView,
    dnd: bool,
) -> Seq<NotificationView> {
    if dnd {
        popups
    } else {
        fronted(popups, n)
    }
}

/// The timer that a popup gets: none when it is to stay, else the shorter of its own
/// timeout and the default.
pub open spec fn popup_millis(n: NotificationView, popup_duration: u32) -> Option<u32> {
    match n.expire_timeout {
        Some(0) => None,
        Some(ttl) => Some(
            if ttl < popup_duration {
                ttl
            } else {
                popup_duration
            },
        ),
        None => Some(popup_duration),
    }
}

/// What follows for the timers when a notification arrived.
pub open spec fn effects_of_popup(n: NotificationView, popup_duration: u32, dnd: bool) -> Seq<
    EffectView,
> {
    match popup_millis(n, popup_duration) {
        Some(millis) if !dnd => seq![EffectView::StartTimer { id: n.id, millis }],
        _ => seq![],
    }
}

/// Shows an incoming notification as a popup, unless "do not disturb" is on.
///
/// A popup of the same id is updated in place and moved to the front.
pub fn handle_popup_added(
    incoming_popup: &Notification,
    popups: &mut Vec<Notification>,
    popup_duration: u32,
    dnd: bool,
) -> (effects: Vec<Effect>)
    ensures
        final(popups).deep_view() == popups_after_add(
            old(popups).deep_view(),
            incoming_popup@,
            dnd,
        ),
        effects.deep_view() == effects_of_popup(incoming_popup@, popup_duration, dnd),
{
    let mut effects: Vec<Effect> = Vec::new();
    if dnd {
        assert(effects.deep_view() =~= seq![]);
        return effects;
    }
    bring_to_front(popups, incoming_popup);
    match incoming_popup.expire_timeout {
        Some(0) => {},
        Some(ttl) => {
            let millis: u32 = if ttl < popup_duration {
                ttl
            } else {
                popup_duration
            };
            effects.push(Effect::StartTimer { id: incoming_popup.id, millis });
        },
        None => {
            effects.push(Effect::StartTimer { id: incoming_popup.id, millis: popup_duration });
        },
    }
    assert(effects.deep_view() =~= effects_of_popup(incoming_popup@, popup_duration, dnd));
    effects
}

/// The popups after a removal: expiry leaves popups untouched.
pub open spec fn popups_after_remove(
    popups: Seq<NotificationView>,
    id: u32,
    reason: ClosedReason,
) -> Seq<NotificationView> {
    if reason is Expired {
        popups
    } else {
        without(popups, id)
    }
}

/// The close signal of a removed notification: directed to its owner, and none when the
/// owner is unknown.
pub open spec fn close_signal(n: NotificationView, reason: ClosedReason) -> Seq<EffectView> {
    match n.owner {
        Some(owner) => seq![EffectView::EmitClosed { owner, id: n.id, reason }],
        None => seq![],
    }
}

/// What follows from a removal: the popup's timer is cancelled unless the notification
/// expired; a notification that was listed is deleted from the store, and its owner is
/// told.
pub open spec fn effects_of_remove(
    history: Seq<NotificationView>,
    id: u32,
    reason: ClosedReason,
) -> Seq<EffectView> {
    let timers = if reason is Expired {
        seq![]
    } else {
        seq![EffectView::CancelTimer(id)]
    };
    match first_with(history, id) {
        Some(n) => timers + seq![EffectView::StoreRemove(id)] + close_signal(n, reason),
        None => timers,
    }
}

/// Removes a notification.
pub fn handle_notification_removed(
    id: u32,
    reason: ClosedReason,
    notifications: &mut Vec<Notification>,
    popups: &mut Vec<Notification>,
) -> (effects: Vec<Effect>)
    ensures
        final(notifications).deep_view() == without(old(notifications).deep_view(), id),
        final(popups).deep_view() == popups_after_remove(old(popups).deep_view(), id, reason),
        effects.deep_view() == effects_of_remove(old(notifications).deep_view(), id, reason),
{
    let ghost history = notifications.deep_view();
    let mut effects: Vec<Effect> = Vec::new();
    match reason {
        ClosedReason::Expired => {},
        _ => {
            effects.push(Effect::CancelTimer(id));
            drop_id(popups, id);
        },
    }
    let ghost timers = effects.deep_view();
    assert(timers =~= if reason is Expired {
        seq![]
    } else {
        seq![EffectView::CancelTimer(id)]
    });

    let owner = match position_of(notifications, id) {
        Some(i) => {
            assert(has_id(history, id));
            crate::text::copy_optional(&notifications[i].owner)
        },
        None => {
            proof {
                lemma_without(history, id);
            }
            return effects;
        },
    };
    proof {
        lemma_first_with(history, id);
    }
    drop_id(notifications, id);
    effects.push(Effect::StoreRemove(id));
    match owner {
        Some(owner) => {
            effects.push(Effect::EmitClosed { owner, id, reason });
        },
        None => {},
    }
    assert(effects.deep_view() =~= effects_of_remove(history, id, reason));
    effects
}

/// The first notification with an id is listed and has the id.
pub proof fn lemma_first_with(list: Seq<NotificationView>, id: u32)
    ensures
        first_with(list, id) is Some <==> has_id(list, id),
        first_with(list, id) matches Some(n) ==> n.id == id && list.contains(n),
    decreases list.len(),
{
    if list.len() > 0 {
        lemma_first_with(list.drop_first(), id);
        if list[0].id != id {
            if has_id(list, id) {
                let i = choose|i: int| 0 <= i < list.len() && (#[trigger] list[i]).id == id;
                assert(list.drop_first()[i - 1].id == id);
            }
            if has_id(list.drop_first(), id) {
                let i = choose|i: int|
                    0 <= i < list.drop_first().len() && (#[trigger] list.drop_first()[i]).id == id;
                assert(list[i + 1].id == id);
            }
            if first_with(list.drop_first(), id) is Some {
                let n = first_with(list.drop_first(), id)->0;
                let i = choose|i: int| 0 <= i < list.drop_first().len() && list.drop_first()[i] == n;
                assert(list[i + 1] == n);
            }
        }
    }
}

/// The ids of some notifications.
pub open spec fn ids_of(list: Seq<NotificationView>) -> Seq<u32> {
    list.map_values(|n: NotificationView| n.id)
}

/// The timers that a batch removal cancels.
pub open spec fn cancelled_timers(ids: Seq<u32>, reason: ClosedReason) -> Seq<EffectView> {
    if reason is Expired {
        seq![]
    } else {
        ids.map_values(|id: u32| EffectView::CancelTimer(id))
    }
}

/// The close signals of removed notifications, in their order.
pub open spec fn close_signals(removed: Seq<NotificationView>, reason: ClosedReason) -> Seq<
    EffectView,
>
    decreases removed.len(),
{
    if removed.len() == 0 {
        seq![]
    } else {
        close_signals(removed.drop_last(), reason) + close_signal(removed.last(), reason)
    }
}

/// The popups after a batch removal: expiry leaves popups untouched.
pub open spec fn popups_after_batch(
    popups: Seq<NotificationView>,
    ids: Seq<u32>,
    reason: ClosedReason,
) -> Seq<NotificationView> {
    if reason is Expired {
        popups
    } else {
        without_all(popups, ids)
    }
}

/// What follows from a batch removal: the timers are cancelled unless the notifications
/// expired; those that were listed are deleted from the store at once, and their owners
/// are told.
pub open spec fn effects_of_batch(
    history: Seq<NotificationView>,
    ids: Seq<u32>,
    reason: ClosedReason,
) -> Seq<EffectView> {
    let removed = only_all(history, ids);
    if removed.len() == 0 {
        cancelled_timers(ids, reason)
    } else {
        cancelled_timers(ids, reason) + seq![EffectView::StoreRemoveMany(ids_of(removed))]
            + close_signals(removed, reason)
    }
}

/// Removes several notifications at once ("clear all" / clear a group). The list updates
/// and the store delete happen a single time for the whole batch. Only the close signal
/// stays per notification: each client is told about its own id, and a notification
/// without an owner has no close signal.
pub fn handle_notifications_removed_batch(
    ids: Vec<u32>,
    reason: ClosedReason,
    notifications: &mut Vec<Notification>,
    popups: &mut Vec<Notification>,
) -> (effects: Vec<Effect>)
    ensures
        final(notifications).deep_view() == without_all(old(notifications).deep_view(), ids@),
        final(popups).deep_view() == popups_after_batch(old(popups).deep_view(), ids@, reason),
        effects.deep_view() == effects_of_batch(old(notifications).deep_view(), ids@, reason),
{
    let ghost history = notifications.deep_view();
    let ghost pops = popups.deep_view();
    let mut effects: Vec<Effect> = Vec::new();
    if ids.len() == 0 {
        proof {
            lemma_no_ids(history, ids@);
            lemma_no_ids(pops, ids@);
        }
        assert(effects.deep_view() =~= effects_of_batch(history, ids@, reason));
        return effects;
    }
    let id_set = crate::lists::id_set(&ids);

    match reason {
        ClosedReason::Expired => {},
        _ => {
            let mut i: usize = 0;
            while i < ids.len()
                invariant
                    i <= ids@.len(),
                    effects@.len() == i,
                    forall|j: int|
                        0 <= j < i ==> (#[trigger] effects@[j])@ == EffectView::CancelTimer(ids@[j]),
                decreases ids@.len() - i,
            {
                effects.push(Effect::CancelTimer(ids[i]));
                i += 1;
            }
            drop_ids(popups, &id_set, &ids);
        },
    }
    assert(effects.deep_view() =~= cancelled_timers(ids@, reason));

    let ghost pred = |n: NotificationView| ids@.contains(n.id);
    let mut removed_ids: Vec<u32> = Vec::new();
    let mut signals: Vec<Effect> = Vec::new();
    let mut i: usize = 0;
    assert(history.take(0) =~= seq![]);
    assert(history.take(0).filter(pred) =~= seq![]) by {
        reveal(Seq::filter);
    }
    assert(signals.deep_view() =~= close_signals(seq![], reason));
    while i < notifications.len()
        invariant
            i <= notifications@.len(),
            history == notifications.deep_view(),
            pred == (|n: NotificationView| ids@.contains(n.id)),
            forall|id: u32| id_set@.contains(id) == ids@.contains(id),
            removed_ids@ == ids_of(history.take(i as int).filter(pred)),
            signals.deep_view() == close_signals(history.take(i as int).filter(pred), reason),
        decreases notifications@.len() - i,
    {
        let ghost before = history.take(i as int).filter(pred);
        let ghost told = signals.deep_view();
        let notif = &notifications[i];
        assert(history[i as int] == notif@);
        proof {
            lemma_filter_step(history, i as int, pred);
        }
        if id_set.contains(&notif.id) {
            removed_ids.push(notif.id);
            match &notif.owner {
                Some(owner) => {
                    signals.push(Effect::EmitClosed { owner: owner.clone(), id: notif.id, reason });
                },
                None => {},
            }
            proof {
                let after = before.push(notif@);
                assert(after.drop_last() =~= before);
                assert(signals.deep_view() =~= told + close_signal(notif@, reason));
                assert(removed_ids@ =~= ids_of(after));
            }
        }
        i += 1;
    }
    assert(history.take(i as int) =~= history);
    let ghost removed = only_all(history, ids@);
    assert(removed_ids@.len() == removed.len());
    if removed_ids.len() == 0 {
        proof {
            lemma_none_removed(history, ids@);
        }
        return effects;
    }
    drop_ids(notifications, &id_set, &ids);
    let ghost timers = effects.deep_view();
    effects.push(Effect::StoreRemoveMany(removed_ids));
    assert(effects.deep_view() =~= timers + seq![EffectView::StoreRemoveMany(ids_of(removed))]);
    let ghost deleted = effects.deep_view();
    let ghost told = signals.deep_view();
    effects.append(&mut signals);
    assert(effects.deep_view() =~= deleted + told);
    effects
}

/// An empty batch removes nothing.
pub proof fn lemma_no_ids(list: Seq<NotificationView>, ids: Seq<u32>)
    requires
        ids.len() == 0,
    ensures
        without_all(list, ids) == list,
        only_all(list, ids).len() == 0,
{
    lemma_filter_all(list, |n: NotificationView| !ids.contains(n.id));
    lemma_filter_members(list, |n: NotificationView| ids.contains(n.id));
    let none = only_all(list, ids);
    if none.len() > 0 {
        assert(ids.contains(none[0].id));
    }
}

proof fn lemma_none_removed(list: Seq<NotificationView>, ids: Seq<u32>)
    requires
        only_all(list, ids).len() == 0,
    ensures
        without_all(list, ids) == list,
{
    let pred = |n: NotificationView| ids.contains(n.id);
    lemma_filter_members(list, pred);
    assert forall|i: int| 0 <= i < list.len() implies !ids.contains((#[trigger] list[i]).id) by {
        if pred(list[i]) {
            assert(list.filter(pred).contains(list[i]));
        }
    }
    lemma_filter_all(list, |n: NotificationView| !ids.contains(n.id));
}

/// The settings that decide how events are handled.
pub struct Settings {
    /// "Do not disturb": no popups.
    pub dnd: bool,
    /// Milliseconds that a popup is shown by default.
    pub popup_duration: u32,
    /// Whether expired notifications leave the history.
    pub remove_expired: bool,
}

/// The notification lists.
pub struct NotificationState {
    /// The history, newest first.
    pub notifications: Vec<Notification>,
    /// The popups, newest first.
    pub popups: Vec<Notification>,
    /// While it is found out whether an application that vanished can be launched again:
    /// the history entries that were listed when it vanished and have been listed since.
    pub seen_notifications: Vec<u32>,
    /// The same of the popups.
    pub seen_popups: Vec<u32>,
}

/// What a [`NotificationState`] denotes.
pub struct StateView {
    /// The history.
    pub notifications: Seq<NotificationView>,
    /// The popups.
    pub popups: Seq<NotificationView>,
    /// The history entries that an application's exit found listed.
    pub seen_notifications: Seq<u32>,
    /// The popups that an application's exit found listed.
    pub seen_popups: Seq<u32>,
}

/// What a [`NotificationEvent`] denotes.
pub enum EventView {
    /// A notification arrived.
    Add(NotificationView),
    /// A notification goes away.
    Remove(u32, ClosedReason),
    /// Several notifications go away.
    RemoveMany(Seq<u32>, ClosedReason),
}

impl View for NotificationState {
    type V = StateView;

    open spec fn view(&self) -> StateView {
        StateView {
            notifications: self.notifications.deep_view(),
            popups: self.popups.deep_view(),
            seen_notifications: self.seen_notifications@,
            seen_popups: self.seen_popups@,
        }
    }
}

impl View for NotificationEvent {
    type V = EventView;

    open spec fn view(&self) -> EventView {
        match self {
            NotificationEvent::Add(notif) => EventView::Add((**notif)@),
            NotificationEvent::Remove(id, reason) => EventView::Remove(*id, *reason),
            NotificationEvent::RemoveMany(ids, reason) => EventView::RemoveMany(ids@, *reason),
        }
    }
}

/// The ids that are still listed, of some that were. An entry that goes is no longer among
/// them, also if another entry of its id is listed later.
pub open spec fn still_listed(seen: Seq<u32>, list: Seq<NotificationView>) -> Seq<u32> {
    seen.filter(|id: u32| has_id(list, id))
}

/// The state with other lists.
pub open spec fn with_lists(
    state: StateView,
    notifications: Seq<NotificationView>,
    popups: Seq<NotificationView>,
) -> StateView {
    StateView {
        notifications,
        popups,
        seen_notifications: still_listed(state.seen_notifications, notifications),
        seen_popups: still_listed(state.seen_popups, popups),
    }
}

/// The state after an event.
pub open spec fn state_after(
    state: StateView,
    event: EventView,
    settings: Settings,
    now: int,
) -> StateView {
    match event {
        EventView::Add(n) => with_lists(
            state,
            history_after_add(state.notifications, n, settings.remove_expired, now),
            popups_after_add(state.popups, n, settings.dnd),
        ),
        EventView::Remove(id, reason) => with_lists(
            state,
            without(state.notifications, id),
            popups_after_remove(state.popups, id, reason),
        ),
        EventView::RemoveMany(ids, reason) => with_lists(
            state,
            without_all(state.notifications, ids),
            popups_after_batch(state.popups, ids, reason),
        ),
    }
}

/// What follows from an event.
pub open spec fn effects_of(
    state: StateView,
    event: EventView,
    settings: Settings,
    now: int,
) -> Seq<EffectView> {
    match event {
        EventView::Add(n) => effects_of_add(state.notifications, n, settings.remove_expired, now)
            + effects_of_popup(n, settings.popup_duration, settings.dnd),
        EventView::Remove(id, reason) => effects_of_remove(state.notifications, id, reason),
        EventView::RemoveMany(ids, reason) => effects_of_batch(state.notifications, ids, reason),
    }
}

/// Whether the expiry of the notification that an event brings is a date.
pub open spec fn event_fits(event: EventView, settings: Settings) -> bool {
    event matches EventView::Add(n) ==> expiry_fits(n, settings.remove_expired)
}

impl NotificationEvent {
    /// Whether the expiry of the notification that this event brings is a date.
    pub fn fits(&self, settings: &Settings) -> (fits: bool)
        ensures
            fits == event_fits(self@, *settings),
    {
        match self {
            NotificationEvent::Add(notif) => match notif.expire_timeout {
                Some(ttl) if !notif.is_transient && settings.remove_expired => {
                    crate::time::stays_in_range(notif.timestamp, ttl)
                },
                _ => true,
            },
            _ => true,
        }
    }
}

fn retain_listed(seen: &Vec<u32>, list: &Vec<Notification>) -> (kept: Vec<u32>)
    ensures
        kept@ == still_listed(seen@, list.deep_view()),
{
    let ghost pred = |id: u32| has_id(list.deep_view(), id);
    let mut kept: Vec<u32> = Vec::new();
    let mut i: usize = 0;
    assert(seen@.take(0).filter(pred) =~= seq![]) by {
        reveal(Seq::filter);
    }
    while i < seen.len()
        invariant
            i <= seen@.len(),
            pred == (|id: u32| has_id(list.deep_view(), id)),
            kept@ == seen@.take(i as int).filter(pred),
        decreases seen@.len() - i,
    {
        proof {
            lemma_filter_step(seen@, i as int, pred);
        }
        if position_of(list, seen[i]).is_some() {
            kept.push(seen[i]);
        }
        i += 1;
    }
    assert(seen@.take(i as int) =~= seen@);
    kept
}

impl NotificationState {
    /// No notifications.
    pub fn new() -> (state: NotificationState)
        ensures
            state@ == (StateView {
                notifications: seq![],
                popups: seq![],
                seen_notifications: seq![],
                seen_popups: seq![],
            }),
    {
        let state = NotificationState {
            notifications: Vec::new(),
            popups: Vec::new(),
            seen_notifications: Vec::new(),
            seen_popups: Vec::new(),
        };
        assert(state.notifications.deep_view() =~= seq![]);
        assert(state.popups.deep_view() =~= seq![]);
        state
    }

    /// Handles an event at a given time.
    pub fn handle_event_at(
        &mut self,
        event: NotificationEvent,
        settings: &Settings,
        now: Timestamp,
    ) -> (effects: Vec<Effect>)
        requires
            event_fits(event@, *settings),
        ensures
            final(self)@ == state_after(old(self)@, event@, *settings, now@),
            effects.deep_view() == effects_of(old(self)@, event@, *settings, now@),
    {
        let effects = match event {
            NotificationEvent::Add(notif) => {
                let mut effects = handle_notification_added_at(
                    &notif,
                    &mut self.notifications,
                    settings.remove_expired,
                    now,
                );
                let ghost first = effects.deep_view();
                let mut shown = handle_popup_added(
                    &notif,
                    &mut self.popups,
                    settings.popup_duration,
                    settings.dnd,
                );
                let ghost second = shown.deep_view();
                effects.append(&mut shown);
                assert(effects.deep_view() =~= first + second);
                effects
            },
            NotificationEvent::Remove(id, reason) => handle_notification_removed(
                id,
                reason,
                &mut self.notifications,
                &mut self.popups,
            ),
            NotificationEvent::RemoveMany(ids, reason) => handle_notifications_removed_batch(
                ids,
                reason,
                &mut self.notifications,
                &mut self.popups,
            ),
        };
        self.forget_unlisted();
        effects
    }

    fn forget_unlisted(&mut self)
        ensures
            final(self)@ == with_lists(old(self)@, old(self)@.notifications, old(self)@.popups),
    {
        self.seen_notifications = retain_listed(&self.seen_notifications, &self.notifications);
        self.seen_popups = retain_listed(&self.seen_popups, &self.popups);
    }

    /// Hides a popup whose time is over. The history keeps it.
    pub fn hide_popup(&mut self, id: u32)
        ensures
            final(self)@ == with_lists(
                old(self)@,
                old(self)@.notifications,
                without(old(self)@.popups, id),
            ),
    {
        drop_id(&mut self.popups, id);
        self.forget_unlisted();
    }

    /// Handles an event at the current time.
    pub fn handle_event(&mut self, event: NotificationEvent, settings: &Settings) -> (effects: Vec<
        Effect,
    >)
        requires
            event_fits(event@, *settings),
        ensures
            exists|now: int|
                #![trigger state_after(old(self)@, event@, *settings, now)]
                crate::time::is_time(now) && final(self)@ == state_after(
                    old(self)@,
                    event@,
                    *settings,
                    now,
                ) && effects.deep_view() == effects_of(old(self)@, event@, *settings, now),
    {
        let now = Timestamp::now();
        self.handle_event_at(event, settings, now)
    }
}

} // verus!
