use wayle_services::action::Action;
use wayle_services::assoc::AssocMap;
use wayle_services::monitoring::{
    handle_notification_added, handle_notification_added_at, handle_notification_removed,
    handle_notifications_removed_batch, handle_popup_added, Effect, NotificationEvent,
    NotificationState, Settings,
};
use wayle_services::notification::Notification;
use wayle_services::source::NotificationSource;
use wayle_services::time::{Timestamp, MAX_MILLIS};
use wayle_services::types::{ClosedReason, Urgency};

fn at(millis: i64) -> Timestamp {
    Timestamp::from_timestamp_millis(millis).expect("it is a date")
}

fn notif(id: u32) -> Notification {
    Notification {
        id,
        app_name: Some("App".to_string()),
        replaces_id: None,
        app_icon: None,
        summary: format!("summary {}", id),
        body: None,
        actions: vec![Action { id: "a".to_string(), label: "A".to_string() }],
        default_action: None,
        hints: Some(AssocMap::new()),
        image_path: None,
        expire_timeout: None,
        timestamp: at(1000),
        owner: Some(format!(":1.{}", id)),
        source: NotificationSource::Freedesktop,
        is_transient: false,
    }
}

fn ids(list: &[Notification]) -> Vec<u32> {
    list.iter().map(|n| n.id).collect()
}

fn describe(effects: &[Effect]) -> Vec<String> {
    effects
        .iter()
        .map(|effect| match effect {
            Effect::StoreAdd => "store".to_string(),
            Effect::StoreRemove(id) => format!("unstore {}", id),
            Effect::StoreRemoveMany(ids) => format!("unstore {:?}", ids),
            Effect::ScheduleExpiry { id, after_nanos } => format!("expire {} {}", id, after_nanos),
            Effect::StartTimer { id, millis } => format!("timer {} {}", id, millis),
            Effect::CancelTimer(id) => format!("cancel {}", id),
            Effect::EmitClosed { owner, id, reason } => {
                format!("closed {} {} {}", owner, id, reason.code())
            }
        })
        .collect()
}

#[test]
fn a_new_notification_comes_first_and_is_stored() {
    let mut list = vec![notif(1), notif(2)];

    let effects = handle_notification_added_at(&notif(3), &mut list, false, at(0));

    assert_eq!(ids(&list), vec![3, 1, 2]);
    assert_eq!(describe(&effects), vec!["store".to_string()]);
}

#[test]
fn a_known_notification_is_updated_and_moved() {
    let mut list = vec![notif(1), notif(2), notif(3)];
    let mut incoming = notif(2);
    incoming.summary = "changed".to_string();
    incoming.owner = Some(":1.99".to_string());

    handle_notification_added_at(&incoming, &mut list, true, at(0));

    assert_eq!(ids(&list), vec![2, 1, 3]);
    assert_eq!(list[0].summary, "changed");
    assert_eq!(list[0].owner, Some(":1.99".to_string()));
}

#[test]
fn a_transient_notification_leaves_history() {
    let mut incoming = notif(2);
    incoming.is_transient = true;
    let mut list = vec![notif(1), notif(2)];

    let effects = handle_notification_added_at(&incoming, &mut list, true, at(0));
    assert_eq!(ids(&list), vec![1]);
    assert_eq!(describe(&effects), vec!["unstore 2".to_string()]);

    let effects = handle_notification_added_at(&incoming, &mut list, true, at(0));
    assert_eq!(ids(&list), vec![1]);
    assert!(effects.is_empty());
}

#[test]
fn expiry_is_scheduled_or_immediate() {
    let mut incoming = notif(7);
    incoming.expire_timeout = Some(500);

    let mut list = vec![];
    let effects = handle_notification_added_at(&incoming, &mut list, true, at(1400));
    assert_eq!(ids(&list), vec![7]);
    assert_eq!(
        describe(&effects),
        vec!["store".to_string(), "expire 7 100000000".to_string()]
    );

    let mut list = vec![notif(1)];
    let effects = handle_notification_added_at(&incoming, &mut list, true, at(1500));
    assert_eq!(ids(&list), vec![1]);
    assert_eq!(describe(&effects), vec!["store".to_string()]);

    let mut list = vec![];
    let effects = handle_notification_added_at(&incoming, &mut list, false, at(9999));
    assert_eq!(ids(&list), vec![7]);
    assert_eq!(describe(&effects), vec!["store".to_string()]);
}

#[test]
fn a_notification_of_long_ago_expires_by_the_clock() {
    let mut incoming = notif(7);
    incoming.expire_timeout = Some(1);
    let mut list = vec![];

    handle_notification_added(&incoming, &mut list, true);

    assert!(list.is_empty());
}

#[test]
fn popups_get_the_shorter_timer() {
    let mut popups = vec![notif(1)];
    let mut short = notif(2);
    short.expire_timeout = Some(100);
    let effects = handle_popup_added(&short, &mut popups, 5000, false);
    assert_eq!(describe(&effects), vec!["timer 2 100".to_string()]);
    assert_eq!(ids(&popups), vec![2, 1]);

    let mut long = notif(3);
    long.expire_timeout = Some(9000);
    let effects = handle_popup_added(&long, &mut popups, 5000, false);
    assert_eq!(describe(&effects), vec!["timer 3 5000".to_string()]);

    let mut sticky = notif(4);
    sticky.expire_timeout = Some(0);
    assert!(handle_popup_added(&sticky, &mut popups, 5000, false).is_empty());
    assert_eq!(ids(&popups), vec![4, 3, 2, 1]);

    let effects = handle_popup_added(&notif(1), &mut popups, 5000, false);
    assert_eq!(describe(&effects), vec!["timer 1 5000".to_string()]);
    assert_eq!(ids(&popups), vec![1, 4, 3, 2]);
}

#[test]
fn do_not_disturb_shows_nothing() {
    let mut popups = vec![notif(1)];

    let effects = handle_popup_added(&notif(2), &mut popups, 5000, true);

    assert!(effects.is_empty());
    assert_eq!(ids(&popups), vec![1]);
}

#[test]
fn a_removal_tells_the_owner() {
    let mut list = vec![notif(1), notif(2)];
    let mut popups = vec![notif(2), notif(3)];

    let effects =
        handle_notification_removed(2, ClosedReason::DismissedByUser, &mut list, &mut popups);

    assert_eq!(ids(&list), vec![1]);
    assert_eq!(ids(&popups), vec![3]);
    assert_eq!(
        describe(&effects),
        vec![
            "cancel 2".to_string(),
            "unstore 2".to_string(),
            "closed :1.2 2 2".to_string()
        ]
    );
}

#[test]
fn expiry_leaves_popups_alone() {
    let mut list = vec![notif(2)];
    let mut popups = vec![notif(2)];

    let effects = handle_notification_removed(2, ClosedReason::Expired, &mut list, &mut popups);

    assert!(list.is_empty());
    assert_eq!(ids(&popups), vec![2]);
    assert_eq!(
        describe(&effects),
        vec!["unstore 2".to_string(), "closed :1.2 2 1".to_string()]
    );
}

#[test]
fn a_removal_of_an_unknown_id_only_cancels_its_timer() {
    let mut list = vec![notif(1)];
    let mut popups = vec![];

    let effects = handle_notification_removed(9, ClosedReason::Closed, &mut list, &mut popups);

    assert_eq!(ids(&list), vec![1]);
    assert_eq!(describe(&effects), vec!["cancel 9".to_string()]);
}

#[test]
fn a_notification_without_owner_has_no_close_signal() {
    let mut orphan = notif(1);
    orphan.owner = None;
    let mut list = vec![orphan];

    let effects =
        handle_notification_removed(1, ClosedReason::Unknown, &mut list, &mut Vec::new());

    assert_eq!(
        describe(&effects),
        vec!["cancel 1".to_string(), "unstore 1".to_string()]
    );
}

#[test]
fn a_batch_is_removed_at_once() {
    let mut orphan = notif(3);
    orphan.owner = None;
    let mut list = vec![notif(1), notif(2), orphan, notif(4)];
    let mut popups = vec![notif(4), notif(5)];

    let effects = handle_notifications_removed_batch(
        vec![4, 9, 3, 1],
        ClosedReason::DismissedByUser,
        &mut list,
        &mut popups,
    );

    assert_eq!(ids(&list), vec![2]);
    assert_eq!(ids(&popups), vec![5]);
    assert_eq!(
        describe(&effects),
        vec![
            "cancel 4".to_string(),
            "cancel 9".to_string(),
            "cancel 3".to_string(),
            "cancel 1".to_string(),
            "unstore [1, 3, 4]".to_string(),
            "closed :1.1 1 2".to_string(),
            "closed :1.4 4 2".to_string(),
        ]
    );
}

#[test]
fn a_batch_without_listed_ids_stores_nothing() {
    let mut list = vec![notif(1)];
    let mut popups = vec![notif(7)];

    let effects = handle_notifications_removed_batch(
        vec![7],
        ClosedReason::Closed,
        &mut list,
        &mut popups,
    );
    assert_eq!(describe(&effects), vec!["cancel 7".to_string()]);
    assert!(popups.is_empty());

    let effects =
        handle_notifications_removed_batch(vec![], ClosedReason::Closed, &mut list, &mut popups);
    assert!(effects.is_empty());
    assert_eq!(ids(&list), vec![1]);
}

#[test]
fn an_expired_batch_leaves_popups_alone() {
    let mut list = vec![notif(1)];
    let mut popups = vec![notif(1)];

    let effects =
        handle_notifications_removed_batch(vec![1], ClosedReason::Expired, &mut list, &mut popups);

    assert_eq!(ids(&popups), vec![1]);
    assert_eq!(
        describe(&effects),
        vec!["unstore [1]".to_string(), "closed :1.1 1 1".to_string()]
    );
}

#[test]
fn a_batch_of_one_is_a_removal() {
    let start = || (vec![notif(1), notif(2)], vec![notif(2)]);
    let (mut list, mut popups) = start();
    handle_notification_removed(2, ClosedReason::Closed, &mut list, &mut popups);
    let (mut other_list, mut other_popups) = start();
    handle_notifications_removed_batch(
        vec![2],
        ClosedReason::Closed,
        &mut other_list,
        &mut other_popups,
    );

    assert_eq!(ids(&list), ids(&other_list));
    assert_eq!(ids(&popups), ids(&other_popups));
}

#[test]
fn a_batch_leaves_what_single_removals_leave() {
    let start = || vec![notif(1), notif(2), notif(3), notif(4), notif(5)];
    let batch = vec![4, 4, 1, 9];
    let signals = |effects: &[Effect]| -> Vec<String> {
        let mut told = describe(effects);
        told.retain(|line| line.starts_with("closed"));
        told.sort();
        told
    };
    let mut one_by_one = start();
    let mut effects = vec![];
    for id in &batch {
        effects.extend(handle_notification_removed(
            *id,
            ClosedReason::Closed,
            &mut one_by_one,
            &mut Vec::new(),
        ));
    }
    let mut at_once = start();
    let batched = handle_notifications_removed_batch(
        batch,
        ClosedReason::Closed,
        &mut at_once,
        &mut Vec::new(),
    );

    assert_eq!(signals(&effects), signals(&batched));
    assert_eq!(signals(&batched).len(), 2);
    assert!(describe(&batched).contains(&"unstore [1, 4]".to_string()));
    assert!(describe(&effects).contains(&"unstore 1".to_string()));
    assert!(describe(&effects).contains(&"unstore 4".to_string()));
    assert_eq!(ids(&at_once), vec![2, 3, 5]);
    assert_eq!(ids(&one_by_one), ids(&at_once));
}

fn settings() -> Settings {
    Settings { dnd: false, popup_duration: 5000, remove_expired: true }
}

#[test]
fn events_run_through_the_state() {
    let mut state = NotificationState::new();

    let added =
        state.handle_event_at(NotificationEvent::Add(Box::new(notif(1))), &settings(), at(0));
    assert_eq!(describe(&added), vec!["store".to_string(), "timer 1 5000".to_string()]);
    state.handle_event(NotificationEvent::Add(Box::new(notif(2))), &settings());
    state.handle_event(NotificationEvent::Add(Box::new(notif(1))), &settings());
    assert_eq!(ids(&state.notifications), vec![1, 2]);
    assert_eq!(ids(&state.popups), vec![1, 2]);

    state.handle_event(NotificationEvent::Remove(1, ClosedReason::Closed), &settings());
    assert_eq!(ids(&state.notifications), vec![2]);
    state.handle_event(
        NotificationEvent::RemoveMany(vec![2, 3], ClosedReason::Closed),
        &settings(),
    );
    assert!(state.notifications.is_empty());
    assert!(state.popups.is_empty());
}

#[test]
fn withdrawing_undoes_an_arrival() {
    let mut state = NotificationState::new();
    state.handle_event(NotificationEvent::Add(Box::new(notif(1))), &settings());
    state.handle_event(NotificationEvent::Add(Box::new(notif(2))), &settings());

    state.handle_event(NotificationEvent::Remove(2, ClosedReason::Closed), &settings());

    assert_eq!(ids(&state.notifications), vec![1]);
    assert_eq!(ids(&state.popups), vec![1]);
}

#[test]
fn an_expiry_beyond_all_dates_is_recognized() {
    let mut late = notif(1);
    late.timestamp = at(MAX_MILLIS);
    late.expire_timeout = Some(1);
    let event = NotificationEvent::Add(Box::new(late));

    assert!(!event.fits(&settings()));
    assert!(event.fits(&Settings { dnd: false, popup_duration: 1, remove_expired: false }));
    assert!(NotificationEvent::Remove(1, ClosedReason::Expired).fits(&settings()));
    assert!(NotificationEvent::Add(Box::new(notif(1))).fits(&settings()));
}

#[test]
fn codes_and_levels_are_those_of_the_protocol() {
    assert_eq!(ClosedReason::Expired.code(), 1);
    assert_eq!(ClosedReason::DismissedByUser.code(), 2);
    assert_eq!(ClosedReason::Closed.code(), 3);
    assert_eq!(ClosedReason::Unknown.code(), 4);
    assert_eq!(Urgency::Low.level(), 0);
    assert_eq!(Urgency::Normal.level(), 1);
    assert_eq!(Urgency::Critical.level(), 2);
}
