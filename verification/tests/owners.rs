use wayle_services::action::Action;
use wayle_services::assoc::AssocMap;
use wayle_services::monitoring::{NotificationEvent, NotificationState, Settings};
use wayle_services::notification::Notification;
use wayle_services::owners::{
    fetched_names, is_disconnect, listed_ids, react_to_disconnect, reconcile_owners, should_strip,
    strip_actions, strip_vanished_app,
};
use wayle_services::source::{GtkDispatch, NotificationSource};
use wayle_services::time::Timestamp;
use wayle_services::types::ClosedReason;

fn action(id: &str) -> Action {
    Action { id: id.to_string(), label: id.to_string() }
}

fn fdo(id: u32, owner: Option<&str>) -> Notification {
    Notification {
        id,
        app_name: None,
        replaces_id: None,
        app_icon: None,
        summary: String::new(),
        body: None,
        actions: vec![action("reply")],
        default_action: Some(action("default")),
        hints: None,
        image_path: None,
        expire_timeout: None,
        timestamp: Timestamp::from_timestamp_millis(0).expect("it is a date"),
        owner: owner.map(|name| name.to_string()),
        source: NotificationSource::Freedesktop,
        is_transient: false,
    }
}

fn gtk(id: u32, app_id: &str) -> Notification {
    let mut notif = fdo(id, None);
    notif.source = NotificationSource::Gtk(GtkDispatch {
        app_id: app_id.to_string(),
        gtk_id: "n".to_string(),
        default_action: None,
        button_actions: AssocMap::new(),
    });
    notif
}

fn names(list: &[&str]) -> Vec<String> {
    list.iter().map(|name| name.to_string()).collect()
}

fn clickable(list: &[Notification]) -> Vec<u32> {
    list.iter()
        .filter(|n| !n.actions.is_empty() || n.default_action.is_some())
        .map(|n| n.id)
        .collect()
}

#[test]
fn stripping_leaves_no_action() {
    let mut notif = fdo(1, Some(":1.1"));

    strip_actions(&mut notif);

    assert!(notif.actions.is_empty());
    assert!(notif.default_action.is_none());
    assert_eq!(notif.owner, Some(":1.1".to_string()));
}

#[test]
fn freedesktop_notifications_live_with_their_owner() {
    let live = names(&[":1.1"]);

    assert!(!should_strip(&fdo(1, Some(":1.1")), &live, &[]));
    assert!(should_strip(&fdo(1, Some(":1.2")), &live, &[]));
    assert!(should_strip(&fdo(1, Some(":1.2")), &live, &names(&[":1.2"])));
    assert!(should_strip(&fdo(1, None), &live, &[]));
}

#[test]
fn gtk_notifications_live_while_their_app_can_be_reached() {
    assert!(!should_strip(&gtk(1, "org.app"), &names(&["org.app"]), &[]));
    assert!(!should_strip(&gtk(1, "org.app"), &[], &names(&["org.app"])));
    assert!(should_strip(&gtk(1, "org.app"), &names(&["org.other"]), &names(&["org.third"])));
}

#[test]
fn reconciling_strips_in_both_lists() {
    let mut list = vec![fdo(1, Some(":1.1")), fdo(2, Some(":1.2")), gtk(3, "a"), gtk(4, "b")];
    let mut popups = vec![fdo(2, Some(":1.2")), gtk(5, "c")];

    reconcile_owners(&mut list, &mut popups, &names(&[":1.1", "a"]), &names(&["b"]));

    assert_eq!(clickable(&list), vec![1, 3, 4]);
    assert!(clickable(&popups).is_empty());
    reconcile_owners(&mut list, &mut popups, &names(&[":1.1", "a"]), &names(&["b"]));
    assert_eq!(clickable(&list), vec![1, 3, 4]);
}

#[test]
fn a_vanished_owner_strips_its_notifications() {
    let mut list = vec![fdo(1, Some(":1.1")), fdo(2, Some(":1.2")), fdo(3, None)];
    let mut popups = vec![fdo(1, Some(":1.1"))];

    assert!(!react_to_disconnect(&mut list, &mut popups, ":1.1"));

    assert_eq!(clickable(&list), vec![2, 3]);
    assert!(clickable(&popups).is_empty());
}

#[test]
fn a_vanished_app_is_judged_by_what_can_be_activated() {
    let mut list = vec![gtk(1, "org.app"), gtk(2, "org.other")];
    let mut popups = vec![];

    assert!(react_to_disconnect(&mut list, &mut popups, "org.app"));
    assert_eq!(clickable(&list), vec![1, 2]);
    let seen = listed_ids(&list);
    assert_eq!(seen, vec![1, 2]);
    let none = listed_ids(&popups);
    strip_vanished_app(&mut list, &mut popups, &seen, &none, "org.app", &names(&["org.app"]));
    assert_eq!(clickable(&list), vec![1, 2]);
    strip_vanished_app(&mut list, &mut popups, &seen, &none, "org.app", &names(&["org.other"]));
    assert_eq!(clickable(&list), vec![2]);
}

#[test]
fn a_popup_alone_makes_the_app_count() {
    let mut popups = vec![gtk(1, "org.app")];

    assert!(react_to_disconnect(&mut Vec::new(), &mut popups, "org.app"));
    strip_vanished_app(&mut Vec::new(), &mut popups, &vec![], &vec![1], "org.app", &[]);
    assert!(clickable(&popups).is_empty());
}

#[test]
fn a_late_arrival_keeps_its_actions() {
    let mut list = vec![gtk(1, "org.app")];
    let seen = listed_ids(&list);
    assert!(react_to_disconnect(&mut list, &mut Vec::new(), "org.app"));
    list.insert(0, gtk(2, "org.app"));

    strip_vanished_app(&mut list, &mut Vec::new(), &seen, &vec![], "org.app", &[]);

    assert_eq!(clickable(&list), vec![2]);
}

fn settings() -> Settings {
    Settings { dnd: false, popup_duration: 5000, remove_expired: false }
}

fn listing(list: Vec<Notification>) -> NotificationState {
    let mut state = NotificationState::new();
    for notif in list {
        state.handle_event(NotificationEvent::Add(Box::new(notif)), &settings());
    }
    state
}

#[test]
fn a_notification_that_is_listed_again_keeps_its_actions() {
    let mut state = listing(vec![gtk(1, "org.app"), gtk(2, "org.app")]);
    assert!(state.note_vanished("org.app"));
    assert_eq!(state.seen_notifications, vec![2, 1]);
    assert_eq!(state.seen_popups, vec![2, 1]);

    state.handle_event(NotificationEvent::Remove(1, ClosedReason::Closed), &settings());
    state.handle_event(NotificationEvent::Add(Box::new(gtk(1, "org.app"))), &settings());
    state.settle_vanished("org.app", &names(&["org.other"]));

    assert_eq!(clickable(&state.notifications), vec![1]);
    assert_eq!(clickable(&state.popups), vec![1]);
    assert!(state.seen_notifications.is_empty());
    assert!(state.seen_popups.is_empty());
}

#[test]
fn a_notification_that_is_replaced_in_place_is_still_the_same() {
    let mut state = listing(vec![gtk(1, "org.app"), gtk(2, "org.other")]);
    assert!(state.note_vanished("org.app"));

    state.handle_event(NotificationEvent::Add(Box::new(gtk(1, "org.app"))), &settings());
    state.handle_event(NotificationEvent::Add(Box::new(gtk(2, "org.app"))), &settings());
    state.handle_event(NotificationEvent::Add(Box::new(gtk(3, "org.app"))), &settings());
    state.settle_vanished("org.app", &[]);

    assert_eq!(clickable(&state.notifications), vec![3]);
    assert_eq!(clickable(&state.popups), vec![3]);
}

#[test]
fn an_app_that_can_be_launched_again_keeps_its_notifications() {
    let mut state = listing(vec![gtk(1, "org.app"), fdo(2, Some(":1.1"))]);
    assert!(state.note_vanished("org.app"));

    state.settle_vanished("org.app", &names(&["org.app"]));
    assert_eq!(clickable(&state.notifications), vec![2, 1]);

    assert!(!state.note_vanished(":1.1"));
    assert!(state.seen_notifications.is_empty());
    assert_eq!(clickable(&state.notifications), vec![1]);
}

#[test]
fn a_popup_that_was_hidden_and_shown_again_keeps_its_actions() {
    let mut state = listing(vec![gtk(1, "org.app")]);
    assert!(state.note_vanished("org.app"));

    state.hide_popup(1);
    assert!(state.popups.is_empty());
    state.handle_event(NotificationEvent::Add(Box::new(gtk(1, "org.app"))), &settings());
    state.settle_vanished("org.app", &[]);

    assert!(clickable(&state.notifications).is_empty());
    assert_eq!(clickable(&state.popups), vec![1]);
}

#[test]
fn only_a_lost_owner_is_a_disconnect() {
    assert!(is_disconnect(Some(":1.1"), None));
    assert!(!is_disconnect(Some(":1.1"), Some(":1.2")));
    assert!(!is_disconnect(None, Some(":1.2")));
    assert!(!is_disconnect(None, None));
}

#[test]
fn a_failed_listing_gives_no_names() {
    assert_eq!(fetched_names(Some(names(&["a", "b"]))), names(&["a", "b"]));
    assert!(fetched_names(None).is_empty());
}
