//! Taking the actions off notifications whose dispatch target is gone.
//!
//! Each notification carries the name its actions dispatch to: the owning connection of a
//! freedesktop notification, the application id of a GTK one. The actions go once that
//! target is unreachable and cannot be reached later.

use vstd::prelude::*;

use crate::lists::id_set;
use crate::monitoring::{ids_of, NotificationState, StateView};
use crate::notification::{Notification, NotificationView};
use crate::source::{NotificationSource, SourceView};
use crate::text::{list_has, same_text};

verus! {

/// A notification without its actions.
pub open spec fn stripped(n: NotificationView) -> NotificationView {
    NotificationView { default_action: None, actions: seq![], ..n }
}

/// Removes a notification's actions in place so it is no longer clickable.
pub fn strip_actions(notif: &mut Notification)
    ensures
        final(notif)@ == stripped(old(notif)@),
{
    notif.default_action = None;
    notif.actions = Vec::new();
    assert(notif.actions.deep_view() =~= seq![]);
}

/// The bus name that a notification's actions are dispatched to.
pub open spec fn dispatch_target(n: NotificationView) -> Option<Seq<char>> {
    match n.source {
        SourceView::Freedesktop => n.owner,
        SourceView::Gtk(dispatch) => Some(dispatch.app_id),
    }
}

/// Whether a notification's actions should go, given the names that are owned (`live`)
/// and those that can be activated.
///
/// The owning connection is the only target of a freedesktop notification: if it is gone
/// or unknown, the actions can never fire again. A GTK target stays reachable while the
/// app runs or if it can be launched.
pub open spec fn must_strip(
    n: NotificationView,
    live: Seq<Seq<char>>,
    activatable: Seq<Seq<char>>,
) -> bool {
    match n.source {
        SourceView::Freedesktop => match n.owner {
            Some(owner) => !live.contains(owner),
            None => true,
        },
        SourceView::Gtk(dispatch) => !live.contains(dispatch.app_id) && !activatable.contains(
            dispatch.app_id,
        ),
    }
}

/// Whether a notification's actions should be stripped given the currently-owned
/// (`live`) and D-Bus-activatable (`activatable`) bus names.
pub fn should_strip(notif: &Notification, live: &[String], activatable: &[String]) -> (strip: bool)
    ensures
        strip == must_strip(notif@, live.deep_view(), activatable.deep_view()),
{
    match &notif.source {
        NotificationSource::Freedesktop => match &notif.owner {
            Some(owner) => !list_has(live, owner.as_str()),
            None => true,
        },
        NotificationSource::Gtk(dispatch) => {
            !list_has(live, dispatch.app_id.as_str()) && !list_has(
                activatable,
                dispatch.app_id.as_str(),
            )
        },
    }
}

/// A list after its notifications were held against the names on the bus.
pub open spec fn reconciled(
    list: Seq<NotificationView>,
    live: Seq<Seq<char>>,
    activatable: Seq<Seq<char>>,
) -> Seq<NotificationView> {
    list.map_values(
        |n: NotificationView|
            if must_strip(n, live, activatable) {
                stripped(n)
            } else {
                n
            },
    )
}

fn reconcile_list(list: &mut Vec<Notification>, live: &[String], activatable: &[String])
    ensures
        final(list).deep_view() == reconciled(
            old(list).deep_view(),
            live.deep_view(),
            activatable.deep_view(),
        ),
{
    let ghost before = list.deep_view();
    let ghost goal = reconciled(before, live.deep_view(), activatable.deep_view());
    let mut i: usize = 0;
    while i < list.len()
        invariant
            i <= list@.len(),
            list@.len() == before.len(),
            goal == reconciled(before, live.deep_view(), activatable.deep_view()),
            forall|j: int| 0 <= j < i ==> (#[trigger] list@[j])@ == goal[j],
            forall|j: int| i <= j < list@.len() ==> (#[trigger] list@[j])@ == before[j],
        decreases list@.len() - i,
    {
        if should_strip(&list[i], live, activatable) {
            strip_actions(&mut list[i]);
        }
        i += 1;
    }
    assert(list.deep_view() =~= goal);
}

/// Holds the notifications restored from a prior session, and those of apps that exited
/// meanwhile, against the names on the bus.
pub fn reconcile_owners(
    notifications: &mut Vec<Notification>,
    popups: &mut Vec<Notification>,
    live: &[String],
    activatable: &[String],
)
    ensures
        final(notifications).deep_view() == reconciled(
            old(notifications).deep_view(),
            live.deep_view(),
            activatable.deep_view(),
        ),
        final(popups).deep_view() == reconciled(
            old(popups).deep_view(),
            live.deep_view(),
            activatable.deep_view(),
        ),
{
    reconcile_list(notifications, live, activatable);
    reconcile_list(popups, live, activatable);
}

/// Whether a change of a name's owner is a disconnect: there was an owner, and there is
/// none now.
pub fn is_disconnect(old_owner: Option<&str>, new_owner: Option<&str>) -> (gone: bool)
    ensures
        gone == (old_owner is Some && new_owner is None),
{
    old_owner.is_some() && new_owner.is_none()
}

/// The names that a listing gave; a listing that failed gives none.
pub fn fetched_names(reply: Option<Vec<String>>) -> (names: Vec<String>)
    ensures
        names.deep_view() == (match reply {
            Some(listed) => listed.deep_view(),
            None => seq![],
        }),
{
    match reply {
        Some(listed) => listed,
        None => {
            let names: Vec<String> = Vec::new();
            assert(names.deep_view() =~= seq![]);
            names
        },
    }
}

/// Whether a freedesktop notification is owned by a name.
pub open spec fn owned_by(n: NotificationView, name: Seq<char>) -> bool {
    n.source is Freedesktop && n.owner == Some(name)
}

/// Whether a GTK notification belongs to an application.
pub open spec fn app_is(n: NotificationView, name: Seq<char>) -> bool {
    n.source matches SourceView::Gtk(dispatch) && dispatch.app_id == name
}

/// A list after a connection vanished: the freedesktop notifications it owned are
/// stripped.
pub open spec fn after_owner_vanished(list: Seq<NotificationView>, vanished: Seq<char>) -> Seq<
    NotificationView,
> {
    list.map_values(
        |n: NotificationView|
            if owned_by(n, vanished) {
                stripped(n)
            } else {
                n
            },
    )
}

/// A list after an application vanished: its notifications are stripped, unless it can be
/// launched again. Only the entries that were listed when it vanished and have been listed
/// since count (`seen`).
pub open spec fn after_app_vanished(
    list: Seq<NotificationView>,
    seen: Seq<u32>,
    vanished: Seq<char>,
    activatable: Seq<Seq<char>>,
) -> Seq<NotificationView> {
    list.map_values(
        |n: NotificationView|
            if seen.contains(n.id) && app_is(n, vanished) && !activatable.contains(vanished) {
                stripped(n)
            } else {
                n
            },
    )
}

/// Whether a list has a notification of an application.
pub open spec fn has_app(list: Seq<NotificationView>, name: Seq<char>) -> bool {
    exists|i: int| 0 <= i < list.len() && app_is(#[trigger] list[i], name)
}

fn strip_owned(list: &mut Vec<Notification>, vanished: &str) -> (app_gone: bool)
    ensures
        final(list).deep_view() == after_owner_vanished(old(list).deep_view(), vanished@),
        app_gone == has_app(old(list).deep_view(), vanished@),
{
    let ghost before = list.deep_view();
    let ghost goal = after_owner_vanished(before, vanished@);
    let mut app_gone = false;
    let mut i: usize = 0;
    while i < list.len()
        invariant
            i <= list@.len(),
            list@.len() == before.len(),
            goal == after_owner_vanished(before, vanished@),
            forall|j: int| 0 <= j < i ==> (#[trigger] list@[j])@ == goal[j],
            forall|j: int| i <= j < list@.len() ==> (#[trigger] list@[j])@ == before[j],
            app_gone == exists|j: int| 0 <= j < i && app_is(#[trigger] before[j], vanished@),
        decreases list@.len() - i,
    {
        assert(list@[i as int]@ == before[i as int]);
        let mut owned = false;
        match &list[i].source {
            NotificationSource::Freedesktop => match &list[i].owner {
                Some(owner) => {
                    owned = same_text(owner.as_str(), vanished);
                },
                None => {},
            },
            NotificationSource::Gtk(dispatch) => {
                if same_text(dispatch.app_id.as_str(), vanished) {
                    app_gone = true;
                    assert(app_is(before[i as int], vanished@));
                }
            },
        }
        assert(owned == owned_by(before[i as int], vanished@));
        if owned {
            strip_actions(&mut list[i]);
        }
        i += 1;
    }
    assert(list.deep_view() =~= goal);
    app_gone
}

/// Re-evaluates notifications whose dispatch target is the just-vanished bus name.
///
/// Freedesktop notifications owned by the vanished name lose their actions at once. The
/// result says whether there is a GTK notification of the vanished application: those
/// need the names that can be activated, see [`strip_vanished_app`].
pub fn react_to_disconnect(
    notifications: &mut Vec<Notification>,
    popups: &mut Vec<Notification>,
    vanished: &str,
) -> (gtk_target_gone: bool)
    ensures
        final(notifications).deep_view() == after_owner_vanished(
            old(notifications).deep_view(),
            vanished@,
        ),
        final(popups).deep_view() == after_owner_vanished(old(popups).deep_view(), vanished@),
        gtk_target_gone == (has_app(old(notifications).deep_view(), vanished@) || has_app(
            old(popups).deep_view(),
            vanished@,
        )),
{
    let listed = strip_owned(notifications, vanished);
    let shown = strip_owned(popups, vanished);
    listed || shown
}

/// The ids of some notifications.
pub fn listed_ids(list: &Vec<Notification>) -> (ids: Vec<u32>)
    ensures
        ids@ == ids_of(list.deep_view()),
{
    let mut ids: Vec<u32> = Vec::new();
    let mut i: usize = 0;
    while i < list.len()
        invariant
            i <= list@.len(),
            ids@.len() == i,
            forall|j: int| 0 <= j < i ==> (#[trigger] ids@[j]) == list@[j].id,
        decreases list@.len() - i,
    {
        ids.push(list[i].id);
        i += 1;
    }
    assert(ids@ =~= ids_of(list.deep_view()));
    ids
}

fn strip_app(list: &mut Vec<Notification>, seen: &Vec<u32>, vanished: &str, activatable: &[String])
    requires
        !activatable.deep_view().contains(vanished@),
    ensures
        final(list).deep_view() == after_app_vanished(
            old(list).deep_view(),
            seen@,
            vanished@,
            activatable.deep_view(),
        ),
{
    let ghost before = list.deep_view();
    let ghost goal = after_app_vanished(before, seen@, vanished@, activatable.deep_view());
    let set = id_set(seen);
    let mut i: usize = 0;
    while i < list.len()
        invariant
            i <= list@.len(),
            list@.len() == before.len(),
            !activatable.deep_view().contains(vanished@),
            goal == after_app_vanished(before, seen@, vanished@, activatable.deep_view()),
            forall|id: u32| set@.contains(id) == seen@.contains(id),
            forall|j: int| 0 <= j < i ==> (#[trigger] list@[j])@ == goal[j],
            forall|j: int| i <= j < list@.len() ==> (#[trigger] list@[j])@ == before[j],
        decreases list@.len() - i,
    {
        assert(list@[i as int]@ == before[i as int]);
        let theirs = match &list[i].source {
            NotificationSource::Freedesktop => false,
            NotificationSource::Gtk(dispatch) => same_text(dispatch.app_id.as_str(), vanished),
        };
        if theirs && set.contains(&list[i].id) {
            strip_actions(&mut list[i]);
        }
        i += 1;
    }
    assert(list.deep_view() =~= goal);
}

/// Strips the GTK notifications of an application that exited, unless it can be launched
/// again through D-Bus activation. Only the entries that were listed when it vanished and
/// have been listed since count: their ids are in `seen_notifications` and `seen_popups`.
/// [`NotificationState`] keeps account of them.
pub fn strip_vanished_app(
    notifications: &mut Vec<Notification>,
    popups: &mut Vec<Notification>,
    seen_notifications: &Vec<u32>,
    seen_popups: &Vec<u32>,
    vanished: &str,
    activatable: &[String],
)
    ensures
        final(notifications).deep_view() == after_app_vanished(
            old(notifications).deep_view(),
            seen_notifications@,
            vanished@,
            activatable.deep_view(),
        ),
        final(popups).deep_view() == after_app_vanished(
            old(popups).deep_view(),
            seen_popups@,
            vanished@,
            activatable.deep_view(),
        ),
{
    if list_has(activatable, vanished) {
        assert(notifications.deep_view() =~= after_app_vanished(
            notifications.deep_view(),
            seen_notifications@,
            vanished@,
            activatable.deep_view(),
        ));
        assert(popups.deep_view() =~= after_app_vanished(
            popups.deep_view(),
            seen_popups@,
            vanished@,
            activatable.deep_view(),
        ));
        return ;
    }
    strip_app(notifications, seen_notifications, vanished, activatable);
    strip_app(popups, seen_popups, vanished, activatable);
}

/// The state after a name vanished: the freedesktop notifications it owned are stripped, and
/// if it has GTK notifications, the entries that are listed now are noted.
pub open spec fn after_vanishing(state: StateView, vanished: Seq<char>) -> StateView {
    let app_gone = has_app(state.notifications, vanished) || has_app(state.popups, vanished);
    StateView {
        notifications: after_owner_vanished(state.notifications, vanished),
        popups: after_owner_vanished(state.popups, vanished),
        seen_notifications: if app_gone {
            ids_of(state.notifications)
        } else {
            seq![]
        },
        seen_popups: if app_gone {
            ids_of(state.popups)
        } else {
            seq![]
        },
    }
}

/// The state once it is known what can be activated: the entries that were noted and are
/// the vanished application's are stripped, unless it can be launched again.
pub open spec fn after_settling(
    state: StateView,
    vanished: Seq<char>,
    activatable: Seq<Seq<char>>,
) -> StateView {
    StateView {
        notifications: after_app_vanished(
            state.notifications,
            state.seen_notifications,
            vanished,
            activatable,
        ),
        popups: after_app_vanished(state.popups, state.seen_popups, vanished, activatable),
        seen_notifications: seq![],
        seen_popups: seq![],
    }
}

impl NotificationState {
    /// Re-evaluates the notifications whose dispatch target is a just-vanished bus name, as
    /// [`react_to_disconnect`] does, and notes which entries are listed. If the result says
    /// so, [`NotificationState::settle_vanished`] follows.
    pub fn note_vanished(&mut self, vanished: &str) -> (gtk_target_gone: bool)
        ensures
            final(self)@ == after_vanishing(old(self)@, vanished@),
            gtk_target_gone == (has_app(old(self)@.notifications, vanished@) || has_app(
                old(self)@.popups,
                vanished@,
            )),
    {
        let listed = listed_ids(&self.notifications);
        let shown = listed_ids(&self.popups);
        let gone = react_to_disconnect(&mut self.notifications, &mut self.popups, vanished);
        if gone {
            self.seen_notifications = listed;
            self.seen_popups = shown;
        } else {
            self.seen_notifications = Vec::new();
            self.seen_popups = Vec::new();
        }
        gone
    }

    /// Strips the GTK notifications of an application that exited, unless it can be
    /// launched again. Whatever was listed since it exited is left alone.
    pub fn settle_vanished(&mut self, vanished: &str, activatable: &[String])
        ensures
            final(self)@ == after_settling(old(self)@, vanished@, activatable.deep_view()),
    {
        strip_vanished_app(
            &mut self.notifications,
            &mut self.popups,
            &self.seen_notifications,
            &self.seen_popups,
            vanished,
            activatable,
        );
        self.seen_notifications = Vec::new();
        self.seen_popups = Vec::new();
    }
}

/// A list after a name vanished, and both steps were taken while nothing else arrived.
pub open spec fn reacted(
    list: Seq<NotificationView>,
    vanished: Seq<char>,
    activatable: Seq<Seq<char>>,
) -> Seq<NotificationView> {
    after_app_vanished(after_owner_vanished(list, vanished), ids_of(list), vanished, activatable)
}

/// A notification that arrives while it is found out what can be activated is left alone,
/// whoever sent it.
pub proof fn law_late_arrival_keeps_its_actions(
    list: Seq<NotificationView>,
    seen: Seq<u32>,
    vanished: Seq<char>,
    activatable: Seq<Seq<char>>,
    at: int,
)
    requires
        0 <= at < list.len(),
        !seen.contains(list[at].id),
    ensures
        after_app_vanished(list, seen, vanished, activatable)[at] == list[at],
{
}

/// Stripping a notification twice is stripping it once, and leaves its dispatch target,
/// its id and its owner as they were.
pub proof fn law_strip_keeps_the_rest(n: NotificationView)
    ensures
        stripped(stripped(n)) == stripped(n),
        dispatch_target(stripped(n)) == dispatch_target(n),
        stripped(n).id == n.id,
        stripped(n).owner == n.owner,
        stripped(n).actions.len() == 0,
        stripped(n).default_action is None,
{
}

/// One rule for both protocols: after a name vanished, exactly the notifications that
/// dispatch to it are stripped, except those of an application that can be launched again.
pub proof fn law_vanished_target_is_stripped(
    list: Seq<NotificationView>,
    vanished: Seq<char>,
    activatable: Seq<Seq<char>>,
)
    ensures
        reacted(list, vanished, activatable)
            == list.map_values(
            |n: NotificationView|
                if dispatch_target(n) == Some(vanished) && !(n.source is Gtk
                    && activatable.contains(vanished)) {
                    stripped(n)
                } else {
                    n
                },
        ),
{
    assert forall|i: int| 0 <= i < list.len() implies ids_of(list).contains(
        (#[trigger] list[i]).id,
    ) by {
        assert(ids_of(list)[i] == list[i].id);
    }
    assert(reacted(list, vanished, activatable)
        =~= list.map_values(
        |n: NotificationView|
            if dispatch_target(n) == Some(vanished) && !(n.source is Gtk && activatable.contains(
                vanished,
            )) {
                stripped(n)
            } else {
                n
            },
    ));
}

/// When no notification of the application is listed, there is nothing left to do after
/// the first step, whatever can be activated.
pub proof fn law_no_app_needs_no_second_step(
    list: Seq<NotificationView>,
    vanished: Seq<char>,
    activatable: Seq<Seq<char>>,
)
    requires
        !has_app(list, vanished),
    ensures
        reacted(list, vanished, activatable)
            == after_owner_vanished(list, vanished),
{
    let first = after_owner_vanished(list, vanished);
    assert forall|i: int| 0 <= i < first.len() implies !app_is(#[trigger] first[i], vanished) by {
        assert(!app_is(list[i], vanished));
    }
    assert(reacted(list, vanished, activatable) =~= first);
}

/// Reacting to a disconnect gives what holding the list against the remaining names would
/// give, for a list that was in line with the names before.
pub proof fn law_reaction_agrees_with_reconciling(
    list: Seq<NotificationView>,
    live: Seq<Seq<char>>,
    remaining: Seq<Seq<char>>,
    vanished: Seq<char>,
    activatable: Seq<Seq<char>>,
)
    requires
        forall|name: Seq<char>| #[trigger]
            remaining.contains(name) == (live.contains(name) && name != vanished),
        reconciled(list, live, activatable) == list,
    ensures
        reconciled(list, remaining, activatable) == reacted(list, vanished, activatable),
{
    let after = reacted(list, vanished, activatable);
    assert forall|i: int| 0 <= i < list.len() implies reconciled(list, remaining, activatable)[i]
        == after[i] by {
        let n = list[i];
        assert(ids_of(list)[i] == n.id);
        assert(reconciled(list, live, activatable)[i] == n);
        match n.source {
            SourceView::Freedesktop => match n.owner {
                Some(owner) => {
                    assert(remaining.contains(owner) == (live.contains(owner) && owner != vanished));
                },
                None => {},
            },
            SourceView::Gtk(dispatch) => {
                assert(remaining.contains(dispatch.app_id) == (live.contains(dispatch.app_id)
                    && dispatch.app_id != vanished));
            },
        }
    }
    assert(reconciled(list, remaining, activatable) =~= after);
}

/// Reconciling twice against the same names is reconciling once.
pub proof fn law_reconcile_is_idempotent(
    list: Seq<NotificationView>,
    live: Seq<Seq<char>>,
    activatable: Seq<Seq<char>>,
)
    ensures
        reconciled(reconciled(list, live, activatable), live, activatable) == reconciled(
            list,
            live,
            activatable,
        ),
{
    assert(reconciled(reconciled(list, live, activatable), live, activatable) =~= reconciled(
        list,
        live,
        activatable,
    ));
}

} // verus!
