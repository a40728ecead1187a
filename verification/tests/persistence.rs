use wayle_services::action::Action;
use wayle_services::assoc::AssocMap;
use wayle_services::notification::Notification;
use wayle_services::persistence::{
    deserialize_source, drop_image_data, gtk_action_from_stored, serialize_source, stored_action,
    NotificationRow, StoredGtkAction, StoredNotification, StoredSource,
};
use wayle_services::source::{GtkAction, GtkDispatch, NotificationSource};
use wayle_services::store::{
    database_error, lock_error, report, row_fits, Error, NotificationStore, SetupAction,
    SetupReply, SetupStage, SqlValue, StoreOperation,
};
use wayle_services::time::{Timestamp, MAX_MILLIS, MIN_MILLIS};
use wayle_services::value::{JsonText, Variant};

fn text(value: &str) -> Variant {
    Variant::Str(value.to_string())
}

/// The stored form in a text, as far as it is one.
fn decode(raw: &str) -> Option<StoredSource> {
    let value: serde_json::Value = serde_json::from_str(raw).ok()?;
    let kind = value.get("kind")?.as_str()?.to_string();
    Some(StoredSource { kind, gtk: None })
}

#[test]
fn source_round_trips_gtk_dispatch_with_target() {
    let mut button_actions = AssocMap::new();
    button_actions.insert(
        String::from("app.open"),
        GtkAction {
            name: String::from("open"),
            target: Some(text("chat-42")),
        },
    );
    let source = NotificationSource::Gtk(GtkDispatch {
        app_id: String::from("org.gnome.Fractal"),
        gtk_id: String::from("msg-1"),
        default_action: Some(GtkAction {
            name: String::from("show"),
            target: None,
        }),
        button_actions,
    });

    let restored = deserialize_source(Some(serialize_source(&source)));

    let NotificationSource::Gtk(dispatch) = restored else {
        panic!("expected a gtk source");
    };
    assert_eq!(dispatch.app_id, "org.gnome.Fractal");
    assert_eq!(dispatch.gtk_id, "msg-1");
    let default = dispatch.default_action.expect("default action preserved");
    assert_eq!(default.name, "show");
    assert!(default.target.is_none());
    let action = dispatch
        .button_actions
        .get(&"app.open".to_string())
        .expect("button action preserved");
    assert_eq!(action.name, "open");
    let target = action.target.as_ref().expect("target preserved");
    assert!(matches!(target, Variant::Str(s) if s == "chat-42"));
}

#[test]
fn source_absent_or_unknown_defaults_to_freedesktop() {
    assert!(matches!(
        deserialize_source(None),
        NotificationSource::Freedesktop
    ));
    assert!(matches!(
        deserialize_source(decode(&String::from("garbage"))),
        NotificationSource::Freedesktop
    ));
}

#[test]
fn other_stored_forms_are_freedesktop() {
    for raw in [r#"{"kind":"fdo"}"#, r#"{"kind":"gtk"}"#, r#"{"kind":"garbage"}"#, "[]", "{}"] {
        assert!(matches!(
            deserialize_source(decode(raw)),
            NotificationSource::Freedesktop
        ));
    }
    let stored = serialize_source(&NotificationSource::Freedesktop);
    assert_eq!(stored.kind, "fdo");
    assert!(stored.gtk.is_none());
}

#[test]
fn a_target_is_stored_as_json() {
    let action = GtkAction { name: "open".to_string(), target: Some(text("chat-42")) };

    let stored = stored_action(&action);

    assert_eq!(stored.name, "open");
    assert_eq!(stored.target, Some(r#"{"signature":"s","value":"chat-42"}"#.to_string()));
    let byte = GtkAction { name: "open".to_string(), target: Some(Variant::Byte(7)) };
    assert_eq!(
        stored_action(&byte).target,
        Some(r#"{"signature":"y","value":7}"#.to_string())
    );
}

#[test]
fn a_plain_target_survives() {
    for value in ["", " ", "plain", "quote's", "ünïcödé", "a/b.c:1", "\u{7f}"] {
        let action = GtkAction { name: "n".to_string(), target: Some(text(value)) };

        let back = gtk_action_from_stored(stored_action(&action));

        assert_eq!(back.name, "n");
        assert!(matches!(back.target, Some(Variant::Str(s)) if s == value));
    }
}

#[test]
fn an_encoded_target_is_stored_and_read_by_its_value() {
    let value = zbus::zvariant::OwnedValue::try_from(zbus::zvariant::Value::new(vec!["a", "b"]))
        .expect("it can be owned");
    let context = zbus::zvariant::serialized::Context::new_dbus(zbus::zvariant::LE, 0);
    let bytes = zbus::zvariant::to_bytes(context, &value).expect("it can be encoded").to_vec();
    let action = GtkAction { name: "n".to_string(), target: Some(Variant::Encoded(bytes)) };

    let stored = stored_action(&action);
    assert_eq!(stored.target, Some(r#"{"signature":"as","value":["a","b"]}"#.to_string()));
    let back = gtk_action_from_stored(stored);
    assert!(matches!(
        &back.target,
        Some(Variant::Json(json)) if json.as_str() == r#"{"signature":"as","value":["a","b"]}"#
    ));
    assert_eq!(stored_action(&back).target, stored_action(&action).target);

    let broken = GtkAction { name: "n".to_string(), target: Some(Variant::Encoded(vec![255])) };
    assert!(stored_action(&broken).target.is_none());
}

#[test]
fn a_target_that_cannot_be_read_is_dropped() {
    for json in ["garbage", "{}", r#"{"signature":"s","value":"a\nb"}"#, r#"{"signature":"s"}"#, "null"] {
        let stored = StoredGtkAction { name: "n".to_string(), target: Some(json.to_string()) };
        assert!(gtk_action_from_stored(stored).target.is_none());
    }
}

fn notification() -> Notification {
    let mut hints = AssocMap::new();
    hints.insert("category".to_string(), text("im"));
    hints.insert("urgency".to_string(), Variant::Byte(1));
    hints.insert("image-data".to_string(), text("raw"));
    hints.insert("image_data".to_string(), text("raw"));
    hints.insert("icon_data".to_string(), text("raw"));
    Notification {
        id: 42,
        app_name: Some("App".to_string()),
        replaces_id: Some(3),
        app_icon: Some("icon".to_string()),
        summary: "Summary".to_string(),
        body: Some("Body \"quoted\"\n".to_string()),
        actions: vec![
            Action { id: "reply".to_string(), label: "Re\\ply \"now\"".to_string() },
            Action { id: "x".to_string(), label: "".to_string() },
        ],
        default_action: None,
        hints: Some(hints),
        image_path: Some("/img.png".to_string()),
        expire_timeout: Some(5000),
        timestamp: Timestamp::from_nanos(1_234_567_890).expect("it is a date"),
        owner: Some(":1.7".to_string()),
        source: NotificationSource::Freedesktop,
        is_transient: false,
    }
}

fn store() -> NotificationStore {
    match NotificationStore::new(Some("/home/u".to_string())) {
        Ok(store) => store,
        Err(_) => panic!("there is a home"),
    }
}

fn row() -> NotificationRow {
    match store().add(&notification()) {
        Ok(row) => row,
        Err(_) => panic!("it can be stored"),
    }
}

#[test]
fn a_row_holds_what_is_persisted() {
    let row = row();

    assert_eq!(row.id, 42);
    assert_eq!(row.timestamp, 1234);
    assert_eq!(row.expire_timeout, Some(5000));
    assert_eq!(row.actions, r#"["reply","Re\\ply \"now\"","x",""]"#);
    assert_eq!(
        row.hints,
        r#"{"category":{"signature":"s","value":"im"},"urgency":{"signature":"y","value":1}}"#
    );
    assert!(matches!(row.source, Some(source) if source.kind == "fdo"));
}

#[test]
fn a_row_comes_back_as_it_was_stored() {
    let stored = StoredNotification::from(&notification());

    let back = StoredNotification::from_row(row());

    assert_eq!(back.id, stored.id);
    assert_eq!(back.app_name, stored.app_name);
    assert_eq!(back.replaces_id, stored.replaces_id);
    assert_eq!(back.app_icon, stored.app_icon);
    assert_eq!(back.summary, stored.summary);
    assert_eq!(back.body, stored.body);
    assert_eq!(back.actions, stored.actions);
    assert_eq!(back.image_path, stored.image_path);
    assert_eq!(back.expire_timeout, stored.expire_timeout);
    assert_eq!(back.timestamp, stored.timestamp);
    assert_eq!(back.owner, stored.owner);
    assert!(matches!(back.source, NotificationSource::Freedesktop));
    let path = back.hints.get(&"image-path".to_string()).expect("the image is a hint");
    assert!(matches!(path, Variant::Str(s) if s == "/img.png"));
    assert!(back.hints.get(&"image-data".to_string()).is_none());
    let category = back.hints.get(&"category".to_string()).expect("the hint is kept");
    assert!(matches!(category, Variant::Str(s) if s == "im"));
}

#[test]
fn a_target_with_a_signature_of_any_length_is_read() {
    for length in [1, 200, 254, 255, 256, 1000] {
        let json = format!(r#"{{"signature":"g","value":"{}"}}"#, "y".repeat(length));
        let stored = StoredGtkAction { name: "n".to_string(), target: Some(json.clone()) };

        let back = gtk_action_from_stored(stored);

        assert!(matches!(&back.target, Some(Variant::Json(text)) if text.as_str() == json));
    }
    let long = "y".repeat(300);
    let plain = GtkAction { name: "n".to_string(), target: Some(text(&long)) };
    let back = gtk_action_from_stored(stored_action(&plain));
    assert!(matches!(back.target, Some(Variant::Str(s)) if s == long));
}

#[test]
fn a_number_comes_back_as_another_kind_of_number() {
    let byte = GtkAction { name: "n".to_string(), target: Some(Variant::Byte(7)) };

    let back = gtk_action_from_stored(stored_action(&byte));

    assert_eq!(
        stored_action(&back).target,
        Some(r#"{"signature":"t","value":7}"#.to_string())
    );
}

#[test]
fn a_json_text_holds_no_escape() {
    assert!(JsonText::new("a\\nb").is_none());
    assert!(matches!(JsonText::new("ab"), Some(json) if json.as_str() == "ab"));
}

#[test]
fn hints_that_are_plain_texts_come_back() {
    let mut plain = notification();
    let mut hints = AssocMap::new();
    hints.insert("category".to_string(), text("im.received"));
    hints.insert("key \"with\" \\ marks\n".to_string(), text("ünïcödé / 'x'"));
    hints.insert("desktop-entry".to_string(), text(""));
    hints.insert("image-path".to_string(), text("/old.png"));
    hints.insert("icon_data".to_string(), text("raw"));
    plain.hints = Some(hints);

    let Ok(row) = store().add(&plain) else {
        panic!("it can be stored");
    };
    let back = StoredNotification::from_row(row).hints;

    assert_eq!(back.entries().len(), 4);
    let hint = |key: &str| -> String {
        match back.get(&key.to_string()) {
            Some(Variant::Str(value)) => value.clone(),
            _ => panic!("the hint should be a text"),
        }
    };
    assert_eq!(hint("category"), "im.received");
    assert_eq!(hint("key \"with\" \\ marks\n"), "ünïcödé / 'x'");
    assert_eq!(hint("desktop-entry"), "");
    assert_eq!(hint("image-path"), "/img.png");
}

#[test]
fn other_hints_come_back_as_far_as_they_can_be_read() {
    let value = zbus::zvariant::OwnedValue::from(true);
    let context = zbus::zvariant::serialized::Context::new_dbus(zbus::zvariant::LE, 0);
    let bytes = zbus::zvariant::to_bytes(context, &value).expect("it can be encoded").to_vec();
    let mut mixed = notification();
    let mut hints = AssocMap::new();
    hints.insert("transient".to_string(), Variant::Encoded(bytes));
    hints.insert("category".to_string(), text("im"));
    hints.insert("sound".to_string(), text("two\nlines"));
    mixed.hints = Some(hints);
    mixed.image_path = None;

    let Ok(row) = store().add(&mixed) else {
        panic!("it can be stored");
    };
    let back = StoredNotification::from_row(row).hints;

    assert_eq!(back.entries().len(), 2);
    assert!(matches!(back.get(&"category".to_string()), Some(Variant::Str(s)) if s == "im"));
    assert!(matches!(
        back.get(&"transient".to_string()),
        Some(Variant::Json(json)) if json.as_str() == r#"{"signature":"b","value":true}"#
    ));
}

fn encoded(value: zbus::zvariant::Value<'_>) -> Variant {
    let value = zbus::zvariant::OwnedValue::try_from(value).expect("it can be owned");
    let context = zbus::zvariant::serialized::Context::new_dbus(zbus::zvariant::LE, 0);
    Variant::Encoded(zbus::zvariant::to_bytes(context, &value).expect("it can be encoded").to_vec())
}

fn kept_values() -> Vec<(&'static str, Variant)> {
    let mut nested = std::collections::HashMap::new();
    for key in ["zeta", "alpha", "Beta", "ünï"] {
        nested.insert(key, zbus::zvariant::Value::new(vec!["x", key]));
    }
    let path = zbus::zvariant::ObjectPath::try_from("/a/b").expect("it is a path");
    vec![
        ("bool", encoded(zbus::zvariant::Value::from(true))),
        ("count", encoded(zbus::zvariant::Value::from(u64::MAX))),
        ("below", encoded(zbus::zvariant::Value::from(i64::MIN))),
        ("half", encoded(zbus::zvariant::Value::from(0.5f64))),
        ("whole", encoded(zbus::zvariant::Value::from(-3.0f64))),
        ("large", encoded(zbus::zvariant::Value::from(1e300f64))),
        ("list", encoded(zbus::zvariant::Value::new(vec!["b", "a"]))),
        ("path", encoded(zbus::zvariant::Value::from(path))),
        ("pair", encoded(zbus::zvariant::Value::new(("one", true)))),
        ("nested", encoded(zbus::zvariant::Value::new(nested))),
    ]
}

#[test]
fn hints_that_are_kept_come_back_as_the_same_values() {
    let mut rich = notification();
    let mut hints = AssocMap::new();
    for (key, value) in kept_values() {
        hints.insert(key.to_string(), value);
    }
    rich.hints = Some(hints);
    rich.image_path = None;

    let Ok(row) = store().add(&rich) else {
        panic!("it can be stored");
    };
    let back = StoredNotification::from_row(row).hints;

    assert_eq!(back.entries().len(), kept_values().len());
    for (key, value) in kept_values() {
        let own = stored_action(&GtkAction { name: "n".to_string(), target: Some(value) })
            .target
            .expect("it has a JSON text");
        let Some(Variant::Json(json)) = back.get(&key.to_string()) else {
            panic!("the hint {} should come back", key);
        };
        assert_eq!(json.as_str(), own);
        let again = GtkAction { name: "n".to_string(), target: Some(Variant::Json(json.clone())) };
        assert_eq!(stored_action(&again).target, Some(own));
    }
}

#[test]
fn hints_that_were_read_are_stored_as_before() {
    let mut rich = notification();
    let mut hints = AssocMap::new();
    for (key, value) in kept_values() {
        hints.insert(key.to_string(), value);
    }
    rich.hints = Some(hints);
    rich.image_path = None;
    let Ok(row) = store().add(&rich) else {
        panic!("it can be stored");
    };
    let first = row.hints.clone();

    rich.hints = Some(StoredNotification::from_row(row).hints);

    assert!(matches!(store().add(&rich), Ok(row) if row.hints == first));
}

#[test]
fn the_image_file_takes_its_place_among_kept_hints() {
    let mut rich = notification();
    let mut hints = AssocMap::new();
    hints.insert("bool".to_string(), encoded(zbus::zvariant::Value::from(true)));
    hints.insert("image-path".to_string(), encoded(zbus::zvariant::Value::from(false)));
    rich.hints = Some(hints);
    rich.image_path = Some("/img.png".to_string());

    let Ok(row) = store().add(&rich) else {
        panic!("it can be stored");
    };
    let back = StoredNotification::from_row(row).hints;

    assert_eq!(back.entries().len(), 2);
    assert!(matches!(back.get(&"image-path".to_string()), Some(Variant::Str(s)) if s == "/img.png"));
    assert!(matches!(back.get(&"bool".to_string()), Some(Variant::Json(_))));
}

#[test]
fn the_first_hint_by_key_that_is_no_value_is_reported() {
    let message = |keys: [&str; 2]| -> String {
        let mut broken = notification();
        let mut hints = AssocMap::new();
        for key in keys {
            let bytes = if key == "x" { vec![] } else { vec![1, 63, 0] };
            hints.insert(key.to_string(), Variant::Encoded(bytes));
        }
        broken.hints = Some(hints);
        match store().add(&broken) {
            Err(Error::DatabaseError(message)) => message,
            Ok(_) => panic!("it cannot be stored"),
        }
    };

    assert_eq!(message(["x", "y"]), message(["y", "x"]));
}

#[test]
fn texts_that_cannot_be_read_are_empty() {
    let mut broken = row();
    broken.actions = "garbage".to_string();
    broken.hints = "garbage".to_string();
    broken.image_path = None;
    broken.source = None;

    let back = StoredNotification::from_row(broken);

    assert!(back.actions.is_empty());
    assert!(back.hints.entries().is_empty());
    assert!(matches!(back.source, NotificationSource::Freedesktop));
}

#[test]
fn missing_hints_are_stored_as_none() {
    let mut bare = notification();
    bare.hints = None;

    assert!(StoredNotification::from(&bare).hints.entries().is_empty());
    assert!(matches!(store().add(&bare), Ok(row) if row.hints == "{}"));
}

#[test]
fn hints_that_are_no_value_are_an_error() {
    let mut broken = notification();
    let mut hints = AssocMap::new();
    hints.insert("x".to_string(), Variant::Encoded(vec![255]));
    broken.hints = Some(hints);

    let Err(Error::DatabaseError(message)) = store().add(&broken) else {
        panic!("it cannot be stored");
    };
    assert!(message.starts_with("cannot serialize hints: "));
    assert!(message.len() > "cannot serialize hints: ".len());
}

#[test]
fn image_data_is_dropped_under_every_name() {
    let mut hints = notification().hints.expect("there are hints");

    drop_image_data(&mut hints);

    assert_eq!(hints.entries().len(), 2);
    assert!(hints.get(&"category".to_string()).is_some());
}

#[test]
fn the_store_lies_below_home() {
    let store = store();
    assert_eq!(store.data_dir, "/home/u/.local/share/wayle");
    assert_eq!(store.db_path, "/home/u/.local/share/wayle/notifications.db");
    let Err(Error::DatabaseError(message)) = NotificationStore::new(None) else {
        panic!("there is no home");
    };
    assert_eq!(message, "HOME environment variable not set");
}

fn columns(names: &[&str]) -> SetupReply {
    SetupReply::Columns(names.iter().map(|name| name.to_string()).collect())
}

fn set_up(existing: &[&str]) -> Vec<String> {
    let mut store = store();
    let mut done = vec![];
    let mut has: Vec<String> = existing.iter().map(|name| name.to_string()).collect();
    loop {
        let (label, reply) = match store.next_action() {
            SetupAction::CreateDirectory(dir) => (format!("dir {}", dir), SetupReply::Done),
            SetupAction::Open(path) => (format!("open {}", path), SetupReply::Done),
            SetupAction::Execute(sql) => {
                if let Some(name) = sql.strip_prefix("ALTER TABLE notifications ADD COLUMN ") {
                    has.push(name.trim_end_matches(" TEXT").to_string());
                }
                (sql.split(" (").next().unwrap_or(sql).to_string(), SetupReply::Done)
            }
            SetupAction::ExecuteBatch(sql) => (sql.to_string(), SetupReply::Done),
            SetupAction::ListColumns(sql) => (sql.to_string(), SetupReply::Columns(has.clone())),
            SetupAction::Nothing => return done,
        };
        done.push(label);
        assert!(store.proceed(reply).is_ok());
    }
}

#[test]
fn setting_up_adds_the_columns_that_are_missing() {
    let fresh = set_up(&["id", "owner", "source"]);
    assert_eq!(
        fresh,
        vec![
            "dir /home/u/.local/share/wayle".to_string(),
            "open /home/u/.local/share/wayle/notifications.db".to_string(),
            "CREATE TABLE IF NOT EXISTS notifications".to_string(),
            "PRAGMA table_info(notifications)".to_string(),
            "PRAGMA table_info(notifications)".to_string(),
            "CREATE TABLE IF NOT EXISTS metadata".to_string(),
            "CREATE TABLE IF NOT EXISTS metadata_text".to_string(),
            "PRAGMA journal_mode = WAL;\nPRAGMA synchronous = NORMAL;".to_string(),
        ]
    );
    let alter = |steps: &[String]| -> Vec<String> {
        steps.iter().filter(|step| step.starts_with("ALTER")).cloned().collect()
    };
    let owner = "ALTER TABLE notifications ADD COLUMN owner TEXT".to_string();
    let source = "ALTER TABLE notifications ADD COLUMN source TEXT".to_string();
    assert_eq!(alter(&set_up(&["id"])), vec![owner.clone(), source.clone()]);
    assert_eq!(alter(&set_up(&["id", "owner"])), vec![source]);
    assert_eq!(alter(&set_up(&["id", "source"])), vec![owner]);
}

#[test]
fn a_failed_step_is_reported_and_not_passed() {
    let mut store = store();
    let Err(Error::DatabaseError(message)) = store.proceed(SetupReply::Failed("full".to_string()))
    else {
        panic!("it failed");
    };
    assert_eq!(message, "cannot create data directory: full");
    assert_eq!(store.stage, SetupStage::CreateDirectory);

    let stages = [
        "cannot open database: x",
        "cannot create table: x",
        "cannot inspect schema: x",
        "cannot add owner column: x",
        "cannot inspect schema: x",
        "cannot add source column: x",
        "cannot create metadata table: x",
        "cannot create metadata_text table: x",
        "cannot set pragmas: x",
    ];
    for expected in stages {
        assert!(store.proceed(columns(&[])).is_ok());
        let Err(Error::DatabaseError(message)) = store.proceed(SetupReply::Failed("x".to_string()))
        else {
            panic!("it failed");
        };
        assert_eq!(message, expected);
    }
    let Err(Error::DatabaseError(message)) = store.proceed(SetupReply::ReadFailed("y".to_string()))
    else {
        panic!("it failed");
    };
    assert_eq!(message, "cannot read schema: y");
}

#[test]
fn the_highest_id_never_goes_back() {
    let store = store();
    let number = |recorded: Option<u32>, id: u32| -> u32 {
        let statement = store.record_id_high_water(recorded, id);
        assert!(statement.sql.contains("id_high_water"));
        match statement.params[..] {
            [SqlValue::Number(number)] => number,
            _ => panic!("one number should be bound"),
        }
    };

    assert_eq!(number(None, 0), 0);
    assert_eq!(number(None, 5), 5);
    assert_eq!(number(Some(9), 5), 9);
    assert_eq!(number(Some(5), 9), 9);
    let mut recorded = None;
    for id in [3, 9, 1, 9, 4] {
        recorded = Some(number(recorded, id));
    }
    assert_eq!(recorded, Some(9));
    assert!(matches!(store.id_high_water(Ok(None)), Ok(0)));
    assert!(matches!(store.id_high_water(Ok(Some(8))), Ok(8)));
    assert!(matches!(
        store.id_high_water(Err("x".to_string())),
        Err(Error::DatabaseError(message)) if message == "cannot read id high-water: x"
    ));
}

#[test]
fn the_bus_guid_is_read_and_recorded() {
    let store = store();

    assert!(matches!(store.bus_guid(Ok(Some("g".to_string()))), Ok(Some(guid)) if guid == "g"));
    assert!(matches!(store.bus_guid(Ok(None)), Ok(None)));
    assert!(matches!(
        store.bus_guid(Err("x".to_string())),
        Err(Error::DatabaseError(message)) if message == "cannot read bus guid: x"
    ));
    let statement = store.record_bus_guid("guid");
    assert!(statement.sql.starts_with("INSERT INTO metadata_text"));
    assert!(matches!(&statement.params[..], [SqlValue::Text(guid)] if guid == "guid"));
}

#[test]
fn notifications_are_removed_by_id() {
    let store = store();

    let one = store.remove(7);
    assert_eq!(one.sql, "DELETE FROM notifications WHERE id = ?1");
    assert!(matches!(one.params[..], [SqlValue::Number(7)]));
    let many = store.remove_many(&[1, 20, 300, u32::MAX]).expect("there are ids");
    assert_eq!(many.sql, "DELETE FROM notifications WHERE id IN (1,20,300,4294967295)");
    assert!(many.params.is_empty());
    let zero = store.remove_many(&[0]).expect("there is an id");
    assert_eq!(zero.sql, "DELETE FROM notifications WHERE id IN (0)");
    assert!(store.remove_many(&[]).is_none());
}

#[test]
fn errors_say_what_failed() {
    let message = |error: Error| -> String {
        let Error::DatabaseError(message) = error;
        message
    };
    let cases = [
        (StoreOperation::RecordHighWater, "cannot record id high-water: d"),
        (StoreOperation::RecordBusGuid, "cannot record bus guid: d"),
        (StoreOperation::SerializeActions, "cannot serialize actions: d"),
        (StoreOperation::Store, "cannot store notification: d"),
        (StoreOperation::Remove, "cannot remove notification: d"),
        (StoreOperation::RemoveMany, "cannot remove notifications: d"),
        (StoreOperation::PrepareLoad, "cannot prepare query: d"),
        (StoreOperation::QueryLoad, "cannot query notifications: d"),
        (StoreOperation::ParseLoad, "cannot parse notifications: d"),
    ];
    for (operation, expected) in cases {
        assert_eq!(message(database_error(operation, "d")), expected);
    }
    assert_eq!(message(lock_error()), "cannot acquire lock on database");
    assert!(report(StoreOperation::Remove, Ok(())).is_ok());
    assert!(matches!(
        report(StoreOperation::Remove, Err("d".to_string())),
        Err(Error::DatabaseError(m)) if m == "cannot remove notification: d"
    ));
}

fn timed(id: u32, timeout: Option<u32>, timestamp: i64) -> NotificationRow {
    let mut row = row();
    row.id = id;
    row.expire_timeout = timeout;
    row.timestamp = timestamp;
    row
}

fn loaded(rows: Vec<NotificationRow>, remove_expired: bool, now: i64) -> Vec<u32> {
    let now = Timestamp::from_timestamp_millis(now).expect("it is a date");
    match store().load_all_at(Ok(rows), remove_expired, now) {
        Ok(list) => list.iter().map(|stored| stored.id).collect(),
        Err(_) => panic!("there are rows"),
    }
}

fn rows() -> Vec<NotificationRow> {
    vec![
        timed(1, None, i64::MIN),
        timed(2, Some(100), 1000),
        timed(3, Some(101), 1000),
        timed(4, Some(5), i64::MAX),
        timed(5, Some(5), MIN_MILLIS),
    ]
}

#[test]
fn expired_rows_are_left_out() {
    assert!(rows().iter().all(row_fits));
    assert_eq!(loaded(rows(), true, 1100), vec![1, 3]);
    assert_eq!(loaded(rows(), true, 1099), vec![1, 2, 3]);
    assert_eq!(loaded(rows(), false, 1100), vec![1, 2, 3, 4, 5]);
}

#[test]
fn rows_are_loaded_by_the_clock() {
    let loaded = match store().load_all(Ok(rows()), true) {
        Ok(list) => list.iter().map(|stored| stored.id).collect::<Vec<u32>>(),
        Err(_) => panic!("there are rows"),
    };
    assert_eq!(loaded, vec![1]);
}

#[test]
fn a_failed_load_is_reported() {
    let reply = Err((StoreOperation::QueryLoad, "x".to_string()));
    assert!(matches!(
        store().load_all(reply, true),
        Err(Error::DatabaseError(message)) if message == "cannot query notifications: x"
    ));
}

#[test]
fn a_timeout_beyond_all_dates_is_recognized() {
    assert!(!row_fits(&timed(1, Some(1), MAX_MILLIS)));
    assert!(row_fits(&timed(1, Some(0), MAX_MILLIS)));
    assert!(row_fits(&timed(1, None, MAX_MILLIS)));
    assert!(row_fits(&timed(1, Some(1), i64::MAX)));
}
