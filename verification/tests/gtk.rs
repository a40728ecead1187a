use wayle_services::assoc::AssocMap;
use wayle_services::controls::{Activation, NotificationControls};
use wayle_services::gtk::{
    build_hints, display_name, icon_field, is_blocked, parse_buttons, parse_icon, strip_file_uri,
    GtkNotificationsDaemon, Icon, ParsedGtkNotification,
};
use wayle_services::monitoring::NotificationEvent;
use wayle_services::source::{gtk_object_path, GtkAction, NotificationSource};
use wayle_services::time::Timestamp;
use wayle_services::types::{ClosedReason, Signal, Urgency};
use wayle_services::value::{owned_string, try_clone_owned, Field, Shape, Vardict, Variant};

fn text(value: &str) -> Shape {
    Shape::Str(value.to_string())
}

fn field(shape: Shape) -> Field {
    Field { shape, encoded: None }
}

fn dict(entries: Vec<(&str, Shape)>) -> Vardict {
    let mut map = AssocMap::new();
    for (key, shape) in entries {
        map.insert(key.to_string(), field(shape));
    }
    map
}

fn button(label: &str, action: &str) -> Shape {
    Shape::Dict(vec![
        (text("label"), field(Shape::Nested(Box::new(text(label))))),
        (text("action"), field(Shape::Nested(Box::new(text(action))))),
    ])
}

fn icon(tag: &str, payload: Shape) -> Shape {
    Shape::Structure(vec![text(tag), Shape::Nested(Box::new(payload))])
}

#[test]
fn file_uris_lose_their_scheme() {
    assert_eq!(strip_file_uri("file:///tmp/a.png"), "/tmp/a.png");
    assert_eq!(strip_file_uri("/tmp/a.png"), "/tmp/a.png");
    assert_eq!(strip_file_uri("file:/tmp/a.png"), "file:/tmp/a.png");
    assert_eq!(strip_file_uri(""), "");
}

#[test]
fn icons_of_each_kind_are_parsed() {
    let themed = icon("themed", Shape::Array(vec![text("mail"), text("mail-unread")]));
    assert!(matches!(parse_icon(&themed), Icon::Themed(name) if name == "mail"));
    let file = icon("file", text("file:///icon.svg"));
    assert!(matches!(parse_icon(&file), Icon::File(path) if path == "/icon.svg"));
    let bytes = icon(
        "bytes",
        Shape::Array(vec![Shape::Byte(1), text("no byte"), Shape::Byte(2)]),
    );
    assert!(matches!(parse_icon(&bytes), Icon::Bytes(data) if data == vec![1u8, 2]));
}

#[test]
fn shapes_that_are_no_icon_give_none() {
    assert!(matches!(parse_icon(&text("themed")), Icon::Absent));
    assert!(matches!(parse_icon(&icon("themed", Shape::Array(vec![]))), Icon::Absent));
    assert!(matches!(parse_icon(&icon("themed", text("mail"))), Icon::Absent));
    assert!(matches!(
        parse_icon(&icon("themed", Shape::Array(vec![Shape::Byte(1)]))),
        Icon::Absent
    ));
    assert!(matches!(parse_icon(&icon("file", Shape::Array(vec![]))), Icon::Absent));
    assert!(matches!(parse_icon(&icon("bytes", text("x"))), Icon::Absent));
    assert!(matches!(parse_icon(&icon("emblem", text("x"))), Icon::Absent));
    assert!(matches!(
        parse_icon(&Shape::Structure(vec![text("file"), text("/a")])),
        Icon::Absent
    ));
    assert!(matches!(parse_icon(&Shape::Structure(vec![text("file")])), Icon::Absent));
    assert!(matches!(parse_icon(&Shape::Other), Icon::Absent));
}

#[test]
fn buttons_need_a_label_and_an_action() {
    let target = Shape::Dict(vec![
        (text("label"), field(text("Open"))),
        (text("action"), field(text("app.open"))),
        (
            text("target"),
            Field {
                shape: Shape::Nested(Box::new(Shape::Other)),
                encoded: Some(vec![1, 2, 3]),
            },
        ),
    ]);
    let buttons = Shape::Array(vec![
        button("Reply", "app.reply"),
        Shape::Dict(vec![(text("label"), field(text("Only label")))]),
        Shape::Dict(vec![
            (Shape::Byte(1), field(text("bad key"))),
            (text("label"), field(text("x"))),
            (text("action"), field(text("app.x"))),
        ]),
        text("no button"),
        target,
    ]);

    let parsed = parse_buttons(Some(&field(buttons)));

    assert_eq!(parsed.len(), 2);
    assert_eq!(parsed[0].label, "Reply");
    assert_eq!(parsed[0].action, "app.reply");
    assert!(parsed[0].target.is_none());
    assert_eq!(parsed[1].label, "Open");
    assert!(matches!(&parsed[1].target, Some(Variant::Encoded(bytes)) if *bytes == vec![1u8, 2, 3]));
    assert!(parse_buttons(None).is_empty());
    assert!(parse_buttons(Some(&field(text("x")))).is_empty());
}

#[test]
fn the_last_of_a_repeated_button_key_counts() {
    let row = Shape::Dict(vec![
        (text("label"), field(text("first"))),
        (text("action"), field(text("app.a"))),
        (text("label"), field(text("second"))),
    ]);

    let parsed = parse_buttons(Some(&field(Shape::Array(vec![row]))));

    assert_eq!(parsed[0].label, "second");
}

fn hint<'a>(hints: &'a AssocMap<String, Variant>, key: &str) -> Option<&'a Variant> {
    hints.get(&key.to_string())
}

#[test]
fn hints_carry_urgency_entry_and_image() {
    let hints = build_hints(Urgency::Critical, Some("/a.png"), "org.gnome.Calendar");

    assert_eq!(hints.entries().len(), 3);
    assert!(matches!(hint(&hints, "urgency"), Some(Variant::Byte(2))));
    assert!(
        matches!(hint(&hints, "desktop-entry"), Some(Variant::Str(s)) if s == "org.gnome.Calendar")
    );
    assert!(matches!(hint(&hints, "image-path"), Some(Variant::Str(s)) if s == "/a.png"));
    assert!(hint(&build_hints(Urgency::Low, None, "x"), "image-path").is_none());
}

fn urgency_for(priority: &str) -> u8 {
    let map = dict(vec![("priority", text(priority))]);
    let parsed = ParsedGtkNotification::from_vardict("app", "id", &map, None);
    match hint(&parsed.hints, "urgency") {
        Some(Variant::Byte(level)) => *level,
        _ => panic!("urgency should be a byte"),
    }
}

#[test]
fn priorities_collapse_onto_three_levels() {
    assert_eq!(urgency_for("urgent"), 2);
    assert_eq!(urgency_for("high"), 1);
    assert_eq!(urgency_for("normal"), 1);
    assert_eq!(urgency_for("low"), 0);
    assert_eq!(urgency_for("unheard-of"), 1);
}

#[test]
fn only_app_actions_can_be_dispatched() {
    let map = dict(vec![
        ("title", text("Title")),
        ("body", Shape::Nested(Box::new(text("Body")))),
        ("default-action", text("app.show")),
        ("default-action-target", text("chat-1")),
        (
            "buttons",
            Shape::Array(vec![button("Reply", "app.reply"), button("Close", "win.close")]),
        ),
    ]);

    let parsed = ParsedGtkNotification::from_vardict("org.app", "n1", &map, None);

    assert_eq!(parsed.title, "Title");
    assert_eq!(parsed.body, Some("Body".to_string()));
    assert_eq!(parsed.app_icon, None);
    assert_eq!(
        parsed.actions_flat,
        vec!["app.reply".to_string(), "Reply".to_string()]
    );
    assert_eq!(parsed.dispatch.app_id, "org.app");
    assert_eq!(parsed.dispatch.gtk_id, "n1");
    let default = parsed.dispatch.default_action.expect("there is a default action");
    assert_eq!(default.name, "show");
    assert!(matches!(default.target, Some(Variant::Str(s)) if s == "chat-1"));
    assert_eq!(parsed.dispatch.button_actions.entries().len(), 1);
    let reply = parsed
        .dispatch
        .button_actions
        .get(&"app.reply".to_string())
        .expect("the button is there");
    assert_eq!(reply.name, "reply");
}

#[test]
fn a_default_action_of_a_window_is_dropped() {
    let map = dict(vec![("default-action", text("win.show"))]);

    let parsed = ParsedGtkNotification::from_vardict("a", "b", &map, None);

    assert!(parsed.dispatch.default_action.is_none());
    assert_eq!(parsed.title, "");
    assert_eq!(parsed.body, None);
}

#[test]
fn icons_become_a_name_or_an_image_file() {
    let themed = dict(vec![("icon", icon("themed", Shape::Array(vec![text("mail")])))]);
    let parsed = ParsedGtkNotification::from_vardict("a", "b", &themed, Some("/cached".to_string()));
    assert_eq!(parsed.app_icon, Some("mail".to_string()));
    assert!(hint(&parsed.hints, "image-path").is_none());

    let file = dict(vec![("icon", icon("file", text("/i.png")))]);
    let parsed = ParsedGtkNotification::from_vardict("a", "b", &file, Some("/cached".to_string()));
    assert!(matches!(hint(&parsed.hints, "image-path"), Some(Variant::Str(s)) if s == "/i.png"));

    let bytes = dict(vec![("icon", icon("bytes", Shape::Array(vec![Shape::Byte(7)])))]);
    assert!(matches!(icon_field(&bytes), Icon::Bytes(data) if data == vec![7u8]));
    let parsed = ParsedGtkNotification::from_vardict("a", "b", &bytes, Some("/cached".to_string()));
    assert!(matches!(hint(&parsed.hints, "image-path"), Some(Variant::Str(s)) if s == "/cached"));
    let parsed = ParsedGtkNotification::from_vardict("a", "b", &bytes, None);
    assert!(hint(&parsed.hints, "image-path").is_none());
    assert!(matches!(icon_field(&dict(vec![])), Icon::Absent));
}

#[test]
fn values_are_carried_by_kind() {
    assert_eq!(owned_string(None), None);
    assert_eq!(owned_string(Some(&field(Shape::Byte(1)))), None);
    assert_eq!(owned_string(Some(&field(text("a")))), Some("a".to_string()));
    let nested = Shape::Nested(Box::new(Shape::Nested(Box::new(text("deep")))));
    assert_eq!(owned_string(Some(&field(nested))), None);
    assert!(matches!(try_clone_owned(&field(Shape::Byte(4))), Some(Variant::Byte(4))));
    assert!(try_clone_owned(&field(Shape::Other)).is_none());
}

#[test]
fn resending_keeps_the_id_and_removing_forgets_it() {
    let mut daemon = GtkNotificationsDaemon::new();

    assert_eq!(daemon.resolve_id("app", "one", || 10), 10);
    assert_eq!(daemon.resolve_id("app", "one", || 11), 10);
    assert_eq!(daemon.resolve_id("app", "two", || 12), 12);
    assert_eq!(daemon.resolve_id("other", "one", || 13), 13);
    assert_eq!(daemon.take_id("app", "one"), Some(10));
    assert_eq!(daemon.take_id("app", "one"), None);
    assert_eq!(daemon.resolve_id("app", "one", || 14), 14);
    assert_eq!(daemon.take_id("other", "one"), Some(13));
}

#[test]
fn adding_makes_a_notification_without_timeout_or_owner() {
    let mut daemon = GtkNotificationsDaemon::new();
    let map = dict(vec![("title", text("Hi"))]);
    let now = Timestamp::from_timestamp_millis(1234).expect("it is a date");

    let props = daemon
        .add_notification_at(
            "org.app".to_string(),
            "n".to_string(),
            &map,
            "App".to_string(),
            false,
            None,
            || 5,
            now,
        )
        .expect("it is not blocked");

    assert_eq!(props.id, 5);
    assert_eq!(props.app_name, "App");
    assert_eq!(props.replaces_id, 0);
    assert_eq!(props.summary, "Hi");
    assert_eq!(props.body, "");
    assert_eq!(props.app_icon, "");
    assert_eq!(props.expire_timeout, -1);
    assert_eq!(props.owner, None);
    assert_eq!(props.timestamp.timestamp_millis(), 1234);
    assert!(matches!(props.source, NotificationSource::Gtk(dispatch) if dispatch.app_id == "org.app"));

    let event = daemon.remove_notification("org.app", "n");
    assert!(matches!(event, Some(NotificationEvent::Remove(5, ClosedReason::Closed))));
    assert!(daemon.remove_notification("org.app", "n").is_none());
}

#[test]
fn a_blocked_notification_takes_no_id() {
    let mut daemon = GtkNotificationsDaemon::new();

    let props = daemon.add_notification(
        "org.app".to_string(),
        "n".to_string(),
        &dict(vec![]),
        "App".to_string(),
        true,
        None,
        || 5,
    );

    assert!(props.is_none());
    assert!(daemon.take_id("org.app", "n").is_none());
}

#[test]
fn a_notification_added_now_has_the_current_time() {
    let mut daemon = GtkNotificationsDaemon::new();
    let before = Timestamp::now();

    let props = daemon
        .add_notification(
            "org.app".to_string(),
            "n".to_string(),
            &dict(vec![]),
            "App".to_string(),
            false,
            None,
            || 5,
        )
        .expect("it is not blocked");

    assert!(props.timestamp.nanos() >= before.nanos());
}

#[test]
fn blocking_goes_by_name_and_pattern() {
    let name = display_name("org.app", Some("App".to_string()));
    assert_eq!(name, "App");
    assert_eq!(display_name("org.app", None), "org.app");
    let equal = |pattern: &String, name: &String| pattern == name;
    let list = vec!["Other".to_string(), "App".to_string()];

    assert!(is_blocked(&list, &name, equal));
    assert!(!is_blocked(&list[..1], &name, equal));
    assert!(!is_blocked(&[], &name, equal));
}

#[test]
fn object_paths_follow_the_application_id() {
    assert_eq!(gtk_object_path("org.gnome.Calendar"), "/org/gnome/Calendar");
    assert_eq!(gtk_object_path("org.my-app.X"), "/org/my_app/X");
    assert_eq!(gtk_object_path(""), "/");
}

#[test]
fn actions_are_invoked_at_their_owner_only() {
    let signal = NotificationControls::invoke(3, "reply", Some(":1.5")).expect("there is an owner");

    assert_eq!(signal.destination, ":1.5");
    assert_eq!(signal.path, "/org/freedesktop/Notifications");
    assert_eq!(signal.interface, "org.freedesktop.Notifications");
    assert_eq!(signal.member, "ActionInvoked");
    assert_eq!(signal.member, Signal::ActionInvoked.as_str());
    assert_eq!(signal.id, 3);
    assert_eq!(signal.action_key, "reply");
    assert!(NotificationControls::invoke(3, "reply", None).is_none());
}

#[test]
fn gtk_actions_are_activated_at_their_application() {
    let action = GtkAction {
        name: "open".to_string(),
        target: Some(Variant::Str("chat".to_string())),
    };

    let call = NotificationControls::activate_gtk("org.my-app", Some(&action));

    assert_eq!(call.destination, "org.my-app");
    assert_eq!(call.path, "/org/my_app");
    assert_eq!(call.interface, "org.freedesktop.Application");
    assert_eq!(call.member, "ActivateAction");
    let Activation::ActivateAction { name, parameter } = call.activation else {
        panic!("an action should be activated");
    };
    assert_eq!(name, "open");
    assert_eq!(parameter.len(), 1);
    assert!(matches!(&parameter[0], Variant::Str(s) if s == "chat"));

    let bare = GtkAction { name: "open".to_string(), target: None };
    let call = NotificationControls::activate_gtk("a", Some(&bare));
    assert!(
        matches!(call.activation, Activation::ActivateAction { parameter, .. } if parameter.is_empty())
    );

    let call = NotificationControls::activate_gtk("a", None);
    assert_eq!(call.member, "Activate");
    assert!(matches!(call.activation, Activation::Activate));
}
