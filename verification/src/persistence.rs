//! What of a notification is persisted, and what is read back.

use vstd::prelude::*;
use vstd::string::*;

use crate::action::{flat_actions, Action};
use crate::assoc::{keys_distinct, map_of, AssocMap};
use crate::json::{
    entries_view, is_plain_text, keeps_entries, object_read, same_value, stands_for, texts_json,
    texts_read, value_is_kept, value_json, value_restored, value_survives, ReadValue,
};
use crate::notification::{Notification, NotificationView};
use crate::source::{
    gtk_actions_view, lemma_gtk_actions_insert, GtkAction, GtkActionView, GtkDispatch,
    GtkDispatchView, NotificationSource, SourceView,
};
use crate::text::{copy_optional, same_text};
use crate::value::{
    hints_view, lemma_take_entry, JsonText, NotificationHints, Variant, VariantView,
};

verus! {

/// A notification as it is persisted.
pub struct StoredNotification {
    /// The id.
    pub id: u32,
    /// Human-readable name of the application.
    pub app_name: Option<String>,
    /// The id of the notification this one replaced.
    pub replaces_id: Option<u32>,
    /// Icon name of the application.
    pub app_icon: Option<String>,
    /// The summary line.
    pub summary: String,
    /// The body text.
    pub body: Option<String>,
    /// The actions as a flat list of ids and labels.
    pub actions: Vec<String>,
    /// The hints.
    pub hints: NotificationHints,
    /// Path of an image file to show.
    pub image_path: Option<String>,
    /// Milliseconds until the notification expires.
    pub expire_timeout: Option<u32>,
    /// When the notification was made, in milliseconds since the Unix epoch.
    pub timestamp: i64,
    /// Unique D-Bus name of the connection that created this notification.
    pub owner: Option<String>,
    /// Origin of the notification and how its actions are dispatched.
    pub source: NotificationSource,
}

/// What a [`StoredNotification`] denotes.
pub struct StoredView {
    /// The id.
    pub id: u32,
    /// Human-readable name of the application.
    pub app_name: Option<Seq<char>>,
    /// The id of the notification this one replaced.
    pub replaces_id: Option<u32>,
    /// Icon name of the application.
    pub app_icon: Option<Seq<char>>,
    /// The summary line.
    pub summary: Seq<char>,
    /// The body text.
    pub body: Option<Seq<char>>,
    /// The actions as a flat list of ids and labels.
    pub actions: Seq<Seq<char>>,
    /// The hints.
    pub hints: Map<Seq<char>, VariantView>,
    /// Path of an image file to show.
    pub image_path: Option<Seq<char>>,
    /// Milliseconds until the notification expires.
    pub expire_timeout: Option<u32>,
    /// When the notification was made, in milliseconds since the Unix epoch.
    pub timestamp: i64,
    /// Unique D-Bus name of the connection that created this notification.
    pub owner: Option<Seq<char>>,
    /// Origin of the notification.
    pub source: SourceView,
}

impl View for StoredNotification {
    type V = StoredView;

    open spec fn view(&self) -> StoredView {
        StoredView {
            id: self.id,
            app_name: self.app_name.deep_view(),
            replaces_id: self.replaces_id,
            app_icon: self.app_icon.deep_view(),
            summary: self.summary@,
            body: self.body.deep_view(),
            actions: self.actions.deep_view(),
            hints: hints_view(self.hints),
            image_path: self.image_path.deep_view(),
            expire_timeout: self.expire_timeout,
            timestamp: self.timestamp,
            owner: self.owner.deep_view(),
            source: self.source@,
        }
    }
}

impl DeepView for StoredNotification {
    type V = StoredView;

    open spec fn deep_view(&self) -> StoredView {
        self@
    }
}

/// What is persisted of a notification: its actions as a flat list, no hints in place of
/// missing ones, and its time in whole milliseconds.
pub open spec fn stored_of(n: NotificationView) -> StoredView {
    StoredView {
        id: n.id,
        app_name: n.app_name,
        replaces_id: n.replaces_id,
        app_icon: n.app_icon,
        summary: n.summary,
        body: n.body,
        actions: flat_actions(n.actions),
        hints: match n.hints {
            Some(hints) => hints,
            None => Map::empty(),
        },
        image_path: n.image_path,
        expire_timeout: n.expire_timeout,
        timestamp: (n.timestamp / crate::time::NANOS_PER_MILLI as int) as i64,
        owner: n.owner,
        source: n.source,
    }
}

impl StoredNotification {
    /// What is persisted of a notification.
    pub fn from(notification: &Notification) -> (stored: StoredNotification)
        ensures
            stored@ == stored_of(notification@),
            stored.id == notification.id,
            stored.app_name.deep_view() == notification.app_name.deep_view(),
            stored.replaces_id == notification.replaces_id,
            stored.app_icon.deep_view() == notification.app_icon.deep_view(),
            stored.summary@ == notification.summary@,
            stored.body.deep_view() == notification.body.deep_view(),
            stored.image_path.deep_view() == notification.image_path.deep_view(),
            stored.expire_timeout == notification.expire_timeout,
            stored.owner.deep_view() == notification.owner.deep_view(),
            stored.source@ == notification.source@,
            crate::action::parsed_actions(stored.actions.deep_view())
                == notification.actions.deep_view(),
            stored.timestamp * 1_000_000 <= notification.timestamp@ < (stored.timestamp + 1)
                * 1_000_000,
            notification.hints matches Some(hints) ==> hints_view(stored.hints) == hints_view(
                hints,
            ),
            notification.hints is None ==> hints_view(stored.hints) == Map::<
                Seq<char>,
                VariantView,
            >::empty(),
    {
        proof {
            crate::action::law_parse_undoes_flatten(notification.actions.deep_view());
        }
        let hints = match &notification.hints {
            Some(hints) => crate::value::copy_hints(hints),
            None => {
                let hints: NotificationHints = AssocMap::new();
                assert(hints_view(hints) =~= Map::empty());
                hints
            },
        };
        StoredNotification {
            id: notification.id,
            app_name: copy_optional(&notification.app_name),
            replaces_id: notification.replaces_id,
            app_icon: copy_optional(&notification.app_icon),
            summary: notification.summary.clone(),
            body: copy_optional(&notification.body),
            actions: Action::to_dbus_format(notification.actions.as_slice()),
            hints,
            image_path: copy_optional(&notification.image_path),
            expire_timeout: notification.expire_timeout,
            timestamp: notification.timestamp.timestamp_millis(),
            owner: copy_optional(&notification.owner),
            source: notification.source.clone(),
        }
    }
}

/// On-disk form of [`NotificationSource`].
pub struct StoredSource {
    /// The protocol: `fdo` or `gtk`.
    pub kind: String,
    /// What the actions of a GTK notification are dispatched to.
    pub gtk: Option<StoredGtkDispatch>,
}

/// On-disk form of [`GtkDispatch`].
pub struct StoredGtkDispatch {
    /// The application id.
    pub app_id: String,
    /// The notification id.
    pub gtk_id: String,
    /// The default action.
    pub default_action: Option<StoredGtkAction>,
    /// The button actions.
    pub button_actions: AssocMap<String, StoredGtkAction>,
}

/// On-disk form of [`GtkAction`].
pub struct StoredGtkAction {
    /// The action name.
    pub name: String,
    /// The action target, as the JSON text of the D-Bus value.
    pub target: Option<String>,
}

/// What a [`StoredSource`] denotes.
pub struct StoredSourceView {
    /// The protocol.
    pub kind: Seq<char>,
    /// What the actions of a GTK notification are dispatched to.
    pub gtk: Option<StoredDispatchView>,
}

/// What a [`StoredGtkDispatch`] denotes.
pub struct StoredDispatchView {
    /// The application id.
    pub app_id: Seq<char>,
    /// The notification id.
    pub gtk_id: Seq<char>,
    /// The default action.
    pub default_action: Option<StoredActionView>,
    /// The button actions.
    pub button_actions: Map<Seq<char>, StoredActionView>,
}

/// What a [`StoredGtkAction`] denotes.
pub struct StoredActionView {
    /// The action name.
    pub name: Seq<char>,
    /// The JSON text of the action target.
    pub target: Option<Seq<char>>,
}

impl View for StoredGtkAction {
    type V = StoredActionView;

    open spec fn view(&self) -> StoredActionView {
        StoredActionView { name: self.name@, target: self.target.deep_view() }
    }
}

impl DeepView for StoredGtkAction {
    type V = StoredActionView;

    open spec fn deep_view(&self) -> StoredActionView {
        self@
    }
}

/// What a map of stored actions denotes.
pub open spec fn stored_actions_view(map: Map<Seq<char>, StoredGtkAction>) -> Map<
    Seq<char>,
    StoredActionView,
> {
    map.map_values(|action: StoredGtkAction| action@)
}

impl View for StoredGtkDispatch {
    type V = StoredDispatchView;

    open spec fn view(&self) -> StoredDispatchView {
        StoredDispatchView {
            app_id: self.app_id@,
            gtk_id: self.gtk_id@,
            default_action: self.default_action.deep_view(),
            button_actions: stored_actions_view(self.button_actions@),
        }
    }
}

impl DeepView for StoredGtkDispatch {
    type V = StoredDispatchView;

    open spec fn deep_view(&self) -> StoredDispatchView {
        self@
    }
}

impl View for StoredSource {
    type V = StoredSourceView;

    open spec fn view(&self) -> StoredSourceView {
        StoredSourceView { kind: self.kind@, gtk: self.gtk.deep_view() }
    }
}

impl DeepView for StoredSource {
    type V = StoredSourceView;

    open spec fn deep_view(&self) -> StoredSourceView {
        self@
    }
}

/// The stored form of an action: its target goes when it has no JSON text.
pub open spec fn action_stored(action: GtkActionView) -> StoredActionView {
    StoredActionView {
        name: action.name,
        target: match action.target {
            Some(target) => value_json(target),
            None => None,
        },
    }
}

/// The action of a stored form: a target that cannot be read goes.
pub open spec fn action_restored(stored: StoredActionView) -> GtkActionView {
    GtkActionView {
        name: stored.name,
        target: match stored.target {
            Some(json) => value_restored(json),
            None => None,
        },
    }
}

/// The stored forms of some actions.
pub open spec fn actions_stored(actions: Map<Seq<char>, GtkActionView>) -> Map<
    Seq<char>,
    StoredActionView,
> {
    actions.map_values(|action: GtkActionView| action_stored(action))
}

/// The actions of some stored forms.
pub open spec fn actions_restored(stored: Map<Seq<char>, StoredActionView>) -> Map<
    Seq<char>,
    GtkActionView,
> {
    stored.map_values(|action: StoredActionView| action_restored(action))
}

/// The stored form of a source.
pub open spec fn source_stored(source: SourceView) -> StoredSourceView {
    match source {
        SourceView::Freedesktop => StoredSourceView { kind: "fdo"@, gtk: None },
        SourceView::Gtk(dispatch) => StoredSourceView {
            kind: "gtk"@,
            gtk: Some(
                StoredDispatchView {
                    app_id: dispatch.app_id,
                    gtk_id: dispatch.gtk_id,
                    default_action: match dispatch.default_action {
                        Some(action) => Some(action_stored(action)),
                        None => None,
                    },
                    button_actions: actions_stored(dispatch.button_actions),
                },
            ),
        },
    }
}

/// The source of a stored form. Only a GTK kind with what it dispatches to is a GTK source;
/// anything else, and no stored form, is a freedesktop source.
pub open spec fn source_restored(stored: Option<StoredSourceView>) -> SourceView {
    match stored {
        Some(stored) => match stored.gtk {
            Some(gtk) if stored.kind == "gtk"@ => SourceView::Gtk(
                GtkDispatchView {
                    app_id: gtk.app_id,
                    gtk_id: gtk.gtk_id,
                    default_action: match gtk.default_action {
                        Some(action) => Some(action_restored(action)),
                        None => None,
                    },
                    button_actions: actions_restored(gtk.button_actions),
                },
            ),
            _ => SourceView::Freedesktop,
        },
        None => SourceView::Freedesktop,
    }
}

/// Whether two actions are the same.
pub open spec fn same_action(a: GtkActionView, b: GtkActionView) -> bool {
    a.name == b.name && match (a.target, b.target) {
        (Some(s), Some(t)) => same_value(s, t),
        (None, None) => true,
        _ => false,
    }
}

/// Whether two sources are the same.
pub open spec fn same_source(a: SourceView, b: SourceView) -> bool {
    match (a, b) {
        (SourceView::Freedesktop, SourceView::Freedesktop) => true,
        (SourceView::Gtk(a), SourceView::Gtk(b)) => {
            &&& a.app_id == b.app_id
            &&& a.gtk_id == b.gtk_id
            &&& match (a.default_action, b.default_action) {
                (Some(s), Some(t)) => same_action(s, t),
                (None, None) => true,
                _ => false,
            }
            &&& a.button_actions.dom() == b.button_actions.dom()
            &&& forall|key: Seq<char>| #[trigger]
                b.button_actions.contains_key(key) ==> same_action(
                    a.button_actions[key],
                    b.button_actions[key],
                )
        },
        _ => false,
    }
}

/// Whether an action survives being stored: it has no target, or one that does.
pub open spec fn action_survives(action: GtkActionView) -> bool {
    action.target matches Some(target) ==> value_survives(target)
}

/// Whether a source survives being stored: all its actions do.
pub open spec fn source_survives(source: SourceView) -> bool {
    match source {
        SourceView::Freedesktop => true,
        SourceView::Gtk(dispatch) => {
            &&& dispatch.default_action matches Some(action) ==> action_survives(action)
            &&& forall|key: Seq<char>| #[trigger]
                dispatch.button_actions.contains_key(key) ==> action_survives(
                    dispatch.button_actions[key],
                )
        },
    }
}

/// Whether an action is simple: it has no target, or a plain text.
pub open spec fn action_is_simple(action: GtkActionView) -> bool {
    action.target matches Some(target) ==> is_plain_text(target)
}

/// Whether all actions of a source are simple.
pub open spec fn source_is_simple(source: SourceView) -> bool {
    match source {
        SourceView::Freedesktop => true,
        SourceView::Gtk(dispatch) => {
            &&& dispatch.default_action matches Some(action) ==> action_is_simple(action)
            &&& forall|key: Seq<char>| #[trigger]
                dispatch.button_actions.contains_key(key) ==> action_is_simple(
                    dispatch.button_actions[key],
                )
        },
    }
}

/// The stored form of an action. A simple action comes back from it as it was.
pub fn stored_action(action: &GtkAction) -> (stored: StoredGtkAction)
    ensures
        stored@ == action_stored(action@),
        action_is_simple(action@) ==> action_restored(stored@) == action@,
{
    let target = match &action.target {
        Some(target) => crate::json::value_to_json(target),
        None => None,
    };
    StoredGtkAction { name: action.name.clone(), target }
}

/// The D-Bus value of a JSON text.
fn restore_value(json: &str) -> (value: Option<Variant>)
    ensures
        value.deep_view() == value_restored(json@),
{
    let text = match JsonText::new(json) {
        Some(text) => text,
        None => {
            return None;
        },
    };
    match crate::json::value_from_json(json) {
        Some(ReadValue::Byte(byte)) => Some(Variant::Byte(byte)),
        Some(ReadValue::Str(text)) => Some(Variant::Str(text)),
        Some(ReadValue::Other) => Some(Variant::Json(text)),
        None => None,
    }
}

/// The action of a stored form.
pub fn gtk_action_from_stored(stored: StoredGtkAction) -> (action: GtkAction)
    ensures
        action@ == action_restored(stored@),
{
    let target = match &stored.target {
        Some(json) => restore_value(json.as_str()),
        None => None,
    };
    GtkAction { name: stored.name, target }
}

proof fn lemma_stored_insert(
    map: Map<Seq<char>, StoredGtkAction>,
    key: Seq<char>,
    action: StoredGtkAction,
)
    ensures
        stored_actions_view(map.insert(key, action)) == stored_actions_view(map).insert(
            key,
            action@,
        ),
{
    assert(stored_actions_view(map.insert(key, action)) =~= stored_actions_view(map).insert(
        key,
        action@,
    ));
}

/// Stores some actions. Simple actions come back as they were.
fn store_actions(actions: &AssocMap<String, GtkAction>) -> (stored: AssocMap<
    String,
    StoredGtkAction,
>)
    ensures
        stored_actions_view(stored@) == actions_stored(gtk_actions_view(actions@)),
        forall|key: Seq<char>| #[trigger]
            actions@.contains_key(key) && action_is_simple(actions@[key]@) ==> action_restored(
                action_stored(actions@[key]@),
            ) == actions@[key]@,
{
    let entries = actions.entries();
    let mut stored: AssocMap<String, StoredGtkAction> = AssocMap::new();
    let mut i: usize = 0;
    assert(entries@.take(0) =~= seq![]);
    assert(stored_actions_view(stored@) =~= actions_stored(
        gtk_actions_view(map_of(entries@.take(0))),
    ));
    while i < entries.len()
        invariant
            i <= entries@.len(),
            keys_distinct(entries@),
            stored_actions_view(stored@) == actions_stored(
                gtk_actions_view(map_of(entries@.take(i as int))),
            ),
            forall|j: int|
                0 <= j < i && action_is_simple((#[trigger] entries@[j]).1@) ==> action_restored(
                    action_stored(entries@[j].1@),
                ) == entries@[j].1@,
        decreases entries@.len() - i,
    {
        let ghost before = stored@;
        let ghost part = map_of(entries@.take(i as int));
        let action = stored_action(&entries[i].1);
        let ghost kept = action;
        stored.insert(entries[i].0.clone(), action);
        proof {
            let key = entries@[i as int].0@;
            let value = entries@[i as int].1;
            lemma_take_entry(entries@, i as int);
            lemma_stored_insert(before, key, kept);
            lemma_gtk_actions_insert(part, key, value);
            assert(actions_stored(gtk_actions_view(part).insert(key, value@)) =~= actions_stored(
                gtk_actions_view(part),
            ).insert(key, action_stored(value@)));
        }
        i += 1;
    }
    assert(entries@.take(entries@.len() as int) =~= entries@);
    proof {
        assert forall|key: Seq<char>| #[trigger]
            actions@.contains_key(key) && action_is_simple(actions@[key]@) implies action_restored(
            action_stored(actions@[key]@),
        ) == actions@[key]@ by {
            let j = choose|j: int| 0 <= j < entries@.len() && (#[trigger] entries@[j]).0@ == key;
            crate::assoc::lemma_entry_of_key(entries@, j);
        }
    }
    stored
}

/// Restores some actions.
fn restore_actions(stored: AssocMap<String, StoredGtkAction>) -> (actions: AssocMap<
    String,
    GtkAction,
>)
    ensures
        gtk_actions_view(actions@) == actions_restored(stored_actions_view(stored@)),
{
    let entries = stored.entries();
    let mut actions: AssocMap<String, GtkAction> = AssocMap::new();
    let mut i: usize = 0;
    assert(entries@.take(0) =~= seq![]);
    assert(gtk_actions_view(actions@) =~= actions_restored(
        stored_actions_view(map_of(entries@.take(0))),
    ));
    while i < entries.len()
        invariant
            i <= entries@.len(),
            keys_distinct(entries@),
            gtk_actions_view(actions@) == actions_restored(
                stored_actions_view(map_of(entries@.take(i as int))),
            ),
        decreases entries@.len() - i,
    {
        let ghost before = actions@;
        let ghost part = map_of(entries@.take(i as int));
        let copy = StoredGtkAction {
            name: entries[i].1.name.clone(),
            target: copy_optional(&entries[i].1.target),
        };
        let action = gtk_action_from_stored(copy);
        let ghost restored = action;
        actions.insert(entries[i].0.clone(), action);
        proof {
            let key = entries@[i as int].0@;
            let value = entries@[i as int].1;
            lemma_take_entry(entries@, i as int);
            lemma_gtk_actions_insert(before, key, restored);
            lemma_stored_insert(part, key, value);
            assert(actions_restored(stored_actions_view(part).insert(key, value@))
                =~= actions_restored(stored_actions_view(part)).insert(
                key,
                action_restored(value@),
            ));
        }
        i += 1;
    }
    assert(entries@.take(entries@.len() as int) =~= entries@);
    actions
}

/// The stored form of a source. A source whose actions are simple comes back from it as it
/// was.
pub fn serialize_source(source: &NotificationSource) -> (stored: StoredSource)
    ensures
        stored@ == source_stored(source@),
        source_is_simple(source@) ==> source_restored(Some(stored@)) == source@,
{
    match source {
        NotificationSource::Freedesktop => StoredSource { kind: "fdo".to_owned(), gtk: None },
        NotificationSource::Gtk(dispatch) => {
            let default_action = match &dispatch.default_action {
                Some(action) => Some(stored_action(action)),
                None => None,
            };
            let button_actions = store_actions(&dispatch.button_actions);
            proof {
                let buttons = gtk_actions_view(dispatch.button_actions@);
                let returned = actions_restored(actions_stored(buttons));
                if source_is_simple(source@) {
                    assert forall|key: Seq<char>| #[trigger]
                        buttons.contains_key(key) implies returned[key] == buttons[key] by {
                        assert(dispatch.button_actions@.contains_key(key));
                    }
                    assert(returned =~= buttons);
                }
            }
            StoredSource {
                kind: "gtk".to_owned(),
                gtk: Some(
                    StoredGtkDispatch {
                        app_id: dispatch.app_id.clone(),
                        gtk_id: dispatch.gtk_id.clone(),
                        default_action,
                        button_actions,
                    },
                ),
            }
        },
    }
}

/// The source of a stored form, if there is one that can be read.
pub fn deserialize_source(raw: Option<StoredSource>) -> (source: NotificationSource)
    ensures
        source@ == source_restored(raw.deep_view()),
{
    let stored = match raw {
        Some(stored) => stored,
        None => {
            return NotificationSource::Freedesktop;
        },
    };
    let is_gtk = same_text(stored.kind.as_str(), "gtk");
    match stored.gtk {
        Some(gtk) if is_gtk => {
            let default_action = match gtk.default_action {
                Some(action) => Some(gtk_action_from_stored(action)),
                None => None,
            };
            NotificationSource::Gtk(
                GtkDispatch {
                    app_id: gtk.app_id,
                    gtk_id: gtk.gtk_id,
                    default_action,
                    button_actions: restore_actions(gtk.button_actions),
                },
            )
        },
        _ => NotificationSource::Freedesktop,
    }
}

/// A row of the notifications table.
pub struct NotificationRow {
    /// The id.
    pub id: u32,
    /// Human-readable name of the application.
    pub app_name: Option<String>,
    /// The id of the notification this one replaced.
    pub replaces_id: Option<u32>,
    /// Icon name of the application.
    pub app_icon: Option<String>,
    /// The summary line.
    pub summary: String,
    /// The body text.
    pub body: Option<String>,
    /// The actions, as a JSON text.
    pub actions: String,
    /// The hints, as a JSON text.
    pub hints: String,
    /// Milliseconds until the notification expires.
    pub expire_timeout: Option<u32>,
    /// When the notification was made, in milliseconds since the Unix epoch.
    pub timestamp: i64,
    /// Path of an image file to show.
    pub image_path: Option<String>,
    /// Unique D-Bus name of the connection that created this notification.
    pub owner: Option<String>,
    /// The stored form of the source, if there is one that can be read.
    pub source: Option<StoredSource>,
}

/// What a [`NotificationRow`] denotes.
pub struct RowView {
    /// The id.
    pub id: u32,
    /// Human-readable name of the application.
    pub app_name: Option<Seq<char>>,
    /// The id of the notification this one replaced.
    pub replaces_id: Option<u32>,
    /// Icon name of the application.
    pub app_icon: Option<Seq<char>>,
    /// The summary line.
    pub summary: Seq<char>,
    /// The body text.
    pub body: Option<Seq<char>>,
    /// The actions, as a JSON text.
    pub actions: Seq<char>,
    /// The hints, as a JSON text.
    pub hints: Seq<char>,
    /// Milliseconds until the notification expires.
    pub expire_timeout: Option<u32>,
    /// When the notification was made, in milliseconds since the Unix epoch.
    pub timestamp: i64,
    /// Path of an image file to show.
    pub image_path: Option<Seq<char>>,
    /// Unique D-Bus name of the connection that created this notification.
    pub owner: Option<Seq<char>>,
    /// The stored form of the source.
    pub source: Option<StoredSourceView>,
}

impl View for NotificationRow {
    type V = RowView;

    open spec fn view(&self) -> RowView {
        RowView {
            id: self.id,
            app_name: self.app_name.deep_view(),
            replaces_id: self.replaces_id,
            app_icon: self.app_icon.deep_view(),
            summary: self.summary@,
            body: self.body.deep_view(),
            actions: self.actions@,
            hints: self.hints@,
            expire_timeout: self.expire_timeout,
            timestamp: self.timestamp,
            image_path: self.image_path.deep_view(),
            owner: self.owner.deep_view(),
            source: self.source.deep_view(),
        }
    }
}

impl DeepView for NotificationRow {
    type V = RowView;

    open spec fn deep_view(&self) -> RowView {
        self@
    }
}

/// The hints that are persisted: all but the image data.
pub open spec fn without_image_data(hints: Map<Seq<char>, VariantView>) -> Map<
    Seq<char>,
    VariantView,
> {
    hints.remove("image-data"@).remove("image_data"@).remove("icon_data"@)
}

fn drop_hint(hints: &mut NotificationHints, key: &str)
    ensures
        hints_view(*final(hints)) == hints_view(*old(hints)).remove(key@),
{
    let ghost before = hints@;
    hints.remove(&key.to_owned());
    assert(hints_view(*hints) =~= crate::value::variants_view(before).remove(key@));
}

/// Takes the image data out of some hints.
pub fn drop_image_data(hints: &mut NotificationHints)
    ensures
        hints_view(*final(hints)) == without_image_data(hints_view(*old(hints))),
{
    drop_hint(hints, "image-data");
    drop_hint(hints, "image_data");
    drop_hint(hints, "icon_data");
}

/// The row of a stored notification, given the JSON text of its hints.
pub open spec fn row_of(stored: StoredView, hints: Seq<char>) -> RowView {
    RowView {
        id: stored.id,
        app_name: stored.app_name,
        replaces_id: stored.replaces_id,
        app_icon: stored.app_icon,
        summary: stored.summary,
        body: stored.body,
        actions: texts_json(stored.actions),
        hints,
        expire_timeout: stored.expire_timeout,
        timestamp: stored.timestamp,
        image_path: stored.image_path,
        owner: stored.owner,
        source: Some(source_stored(stored.source)),
    }
}

/// The hints among the entries of an object: those whose value can be read.
pub open spec fn hints_among(entries: Seq<(Seq<char>, Seq<char>)>) -> Map<
    Seq<char>,
    VariantView,
>
    decreases entries.len(),
{
    if entries.len() == 0 {
        Map::empty()
    } else {
        let rest = hints_among(entries.drop_last());
        match value_restored(entries.last().1) {
            Some(value) => rest.insert(entries.last().0, value),
            None => rest,
        }
    }
}

/// Hints, with the image file among them.
pub open spec fn with_image_path(
    hints: Map<Seq<char>, VariantView>,
    image_path: Option<Seq<char>>,
) -> Map<Seq<char>, VariantView> {
    match image_path {
        Some(path) => hints.insert("image-path"@, VariantView::Str(path)),
        None => hints,
    }
}

/// The hints of a row: those of its text that can be read, and the image file.
pub open spec fn hints_restored(json: Seq<char>, image_path: Option<Seq<char>>) -> Map<
    Seq<char>,
    VariantView,
> {
    let hints = match object_read(json) {
        Some(entries) => hints_among(entries),
        None => Map::empty(),
    };
    with_image_path(hints, image_path)
}

/// Whether every hint is a plain text.
pub open spec fn hints_are_plain(hints: Map<Seq<char>, VariantView>) -> bool {
    forall|key: Seq<char>| #[trigger] hints.contains_key(key) ==> is_plain_text(hints[key])
}

/// Whether, of some hints, those that are kept in an object are there as the same values
/// among others, and plain texts unchanged.
pub open spec fn keeps_hints(
    hints: Map<Seq<char>, VariantView>,
    others: Map<Seq<char>, VariantView>,
) -> bool {
    forall|key: Seq<char>| #[trigger]
        hints.contains_key(key) ==> {
            &&& value_is_kept(hints[key]) ==> others.contains_key(key) && same_value(
                others[key],
                hints[key],
            )
            &&& is_plain_text(hints[key]) ==> others.contains_key(key) && others[key] == hints[key]
        }
}

/// Whether every hint is kept in an object.
pub open spec fn hints_are_kept(hints: Map<Seq<char>, VariantView>) -> bool {
    forall|key: Seq<char>| #[trigger] hints.contains_key(key) ==> value_is_kept(hints[key])
}

/// Whether two sets of hints are the same: the same keys, with the same values.
pub open spec fn same_hints(
    a: Map<Seq<char>, VariantView>,
    b: Map<Seq<char>, VariantView>,
) -> bool {
    &&& a.dom() == b.dom()
    &&& forall|key: Seq<char>| #[trigger] b.contains_key(key) ==> same_value(a[key], b[key])
}

/// What of a stored notification is read back at best: all of it but the image data, with
/// the image file as a hint.
pub open spec fn kept(stored: StoredView) -> StoredView {
    StoredView {
        hints: with_image_path(without_image_data(stored.hints), stored.image_path),
        ..stored
    }
}

proof fn lemma_hint_of_entry(entries: Seq<(Seq<char>, Seq<char>)>, at: int)
    requires
        0 <= at < entries.len(),
        forall|i: int, j: int|
            0 <= i < j < entries.len() ==> (#[trigger] entries[i]).0 != (#[trigger] entries[j]).0,
    ensures
        value_restored(entries[at].1) matches Some(value) ==> hints_among(entries).contains_key(
            entries[at].0,
        ) && hints_among(entries)[entries[at].0] == value,
    decreases entries.len(),
{
    let front = entries.drop_last();
    if at < front.len() {
        assert forall|i: int, j: int| 0 <= i < j < front.len() implies (#[trigger] front[i]).0 != (
        #[trigger] front[j]).0 by {
            assert(entries[i].0 != entries[j].0);
        }
        lemma_hint_of_entry(front, at);
        assert(entries[at].0 != entries[entries.len() - 1].0);
    }
}

/// A hint is read back exactly if the JSON text of its entry can be read, and then as what
/// that text stands for; no other hint is.
pub proof fn law_hints_are_what_their_entries_say(
    entries: Seq<(Seq<char>, Seq<char>)>,
    at: int,
    key: Seq<char>,
)
    requires
        forall|i: int, j: int|
            0 <= i < j < entries.len() ==> (#[trigger] entries[i]).0 != (#[trigger] entries[j]).0,
    ensures
        0 <= at < entries.len() ==> hints_among(entries).contains_key(entries[at].0)
            == value_restored(entries[at].1) is Some,
        0 <= at < entries.len() && value_restored(entries[at].1) is Some ==> hints_among(
            entries,
        )[entries[at].0] == value_restored(entries[at].1)->0,
        (forall|i: int| 0 <= i < entries.len() ==> (#[trigger] entries[i]).0 != key)
            ==> !hints_among(entries).contains_key(key),
    decreases entries.len(),
{
    if entries.len() > 0 {
        let front = entries.drop_last();
        let last = entries[entries.len() - 1];
        assert forall|i: int, j: int| 0 <= i < j < front.len() implies (#[trigger] front[i]).0 != (
        #[trigger] front[j]).0 by {
            assert(entries[i].0 != entries[j].0);
        }
        law_hints_are_what_their_entries_say(front, at, key);
        law_hints_are_what_their_entries_say(front, at, last.0);
        assert forall|i: int| 0 <= i < front.len() implies (#[trigger] front[i]).0 != last.0 by {
            assert(entries[i].0 != last.0);
        }
        if 0 <= at < front.len() {
            assert(entries[at].0 != last.0);
        }
        if forall|i: int| 0 <= i < entries.len() ==> (#[trigger] entries[i]).0 != key {
            assert forall|i: int| 0 <= i < front.len() implies (#[trigger] front[i]).0 != key by {
                assert(front[i] == entries[i]);
            }
            assert(last.0 != key);
        }
    }
}

proof fn lemma_entry_of_hint(entries: Seq<(Seq<char>, Seq<char>)>, key: Seq<char>)
    requires
        hints_among(entries).contains_key(key),
    ensures
        exists|i: int| 0 <= i < entries.len() && (#[trigger] entries[i]).0 == key,
    decreases entries.len(),
{
    let front = entries.drop_last();
    if entries.last().0 == key {
        assert(entries[entries.len() - 1].0 == key);
    } else {
        lemma_entry_of_hint(front, key);
        let i = choose|i: int| 0 <= i < front.len() && (#[trigger] front[i]).0 == key;
        assert(entries[i].0 == key);
    }
}

/// Hints that are kept in an object come back from the entries that they were written as, as
/// the same values, and plain texts unchanged; no other hint comes. If all hints are kept,
/// the same hints come back; if all are plain texts, exactly they do.
pub proof fn law_stored_hints_come_back(
    hints: Map<Seq<char>, VariantView>,
    entries: Seq<(Seq<char>, Seq<char>)>,
)
    requires
        keeps_entries(hints, entries),
    ensures
        keeps_hints(hints, hints_among(entries)),
        hints_among(entries).dom().subset_of(hints.dom()),
        hints_are_kept(hints) ==> same_hints(hints_among(entries), hints),
        hints_are_plain(hints) ==> hints_among(entries) == hints,
{
    let back = hints_among(entries);
    assert forall|key: Seq<char>| #[trigger] hints.contains_key(key) implies {
        &&& value_is_kept(hints[key]) ==> back.contains_key(key) && same_value(
            back[key],
            hints[key],
        )
        &&& is_plain_text(hints[key]) ==> back.contains_key(key) && back[key] == hints[key]
    } by {
        let i = choose|i: int| 0 <= i < entries.len() && (#[trigger] entries[i]).0 == key;
        assert(is_plain_text(hints[key]) ==> stands_for(entries[i].1, hints[key]));
        assert(value_is_kept(hints[key]) ==> value_json(hints[key]) == Some(entries[i].1));
        lemma_hint_of_entry(entries, i);
    }
    assert forall|key: Seq<char>| #[trigger] back.contains_key(key) implies hints.contains_key(
        key,
    ) by {
        lemma_entry_of_hint(entries, key);
        let i = choose|i: int| 0 <= i < entries.len() && (#[trigger] entries[i]).0 == key;
        assert(hints.contains_key(entries[i].0));
    }
    if hints_are_kept(hints) {
        assert(back.dom() =~= hints.dom());
    }
    if hints_are_plain(hints) {
        assert(back =~= hints);
    }
}

/// The image file takes its place among hints whatever they are: the same hints stay the
/// same.
pub proof fn law_image_path_keeps_hints_the_same(
    a: Map<Seq<char>, VariantView>,
    b: Map<Seq<char>, VariantView>,
    image_path: Option<Seq<char>>,
)
    requires
        same_hints(a, b),
    ensures
        same_hints(with_image_path(a, image_path), with_image_path(b, image_path)),
{
    let c = with_image_path(a, image_path);
    let d = with_image_path(b, image_path);
    assert(c.dom() =~= d.dom());
    assert forall|key: Seq<char>| #[trigger] d.contains_key(key) implies same_value(
        c[key],
        d[key],
    ) by {
        if image_path is None || key != "image-path"@ {
            assert(b.contains_key(key));
        }
    }
}

/// What is read back from a row: actions that cannot be read are none, hints that cannot be
/// read are left out, and the image file is a hint again.
pub open spec fn restored(row: RowView) -> StoredView {
    StoredView {
        id: row.id,
        app_name: row.app_name,
        replaces_id: row.replaces_id,
        app_icon: row.app_icon,
        summary: row.summary,
        body: row.body,
        actions: match texts_read(row.actions) {
            Some(actions) => actions,
            None => seq![],
        },
        hints: hints_restored(row.hints, row.image_path),
        image_path: row.image_path,
        expire_timeout: row.expire_timeout,
        timestamp: row.timestamp,
        owner: row.owner,
        source: source_restored(row.source),
    }
}

/// Keeps the hints whose value can be read.
fn collect_hints(entries: Vec<(String, String)>) -> (hints: NotificationHints)
    ensures
        hints_view(hints) == hints_among(entries_view(entries@)),
{
    let ghost all = entries_view(entries@);
    let mut hints: NotificationHints = AssocMap::new();
    assert(all.take(0) =~= seq![]);
    assert(hints_view(hints) =~= hints_among(all.take(0)));
    for entry in it: entries.into_iter()
        invariant
            it.seq() == entries@,
            all == entries_view(entries@),
            hints_view(hints) == hints_among(all.take(it.index())),
    {
        proof {
            let more = all.take(it.index() + 1);
            assert(more.drop_last() =~= all.take(it.index()));
            assert(more.last() == (entry.0@, entry.1@));
        }
        match restore_value(entry.1.as_str()) {
            Some(value) => {
                proof {
                    crate::value::lemma_variants_insert(hints@, entry.0@, value);
                }
                hints.insert(entry.0, value);
            },
            None => {},
        }
    }
    assert(all.take(all.len() as int) =~= all);
    hints
}

impl StoredNotification {
    /// What is read back from a row.
    pub fn from_row(row: NotificationRow) -> (stored: StoredNotification)
        ensures
            stored@ == restored(row@),
            stored.id == row.id,
            stored.app_name.deep_view() == row.app_name.deep_view(),
            stored.replaces_id == row.replaces_id,
            stored.app_icon.deep_view() == row.app_icon.deep_view(),
            stored.summary@ == row.summary@,
            stored.body.deep_view() == row.body.deep_view(),
            stored.image_path.deep_view() == row.image_path.deep_view(),
            stored.expire_timeout == row.expire_timeout,
            stored.timestamp == row.timestamp,
            stored.owner.deep_view() == row.owner.deep_view(),
            texts_read(row.actions@) matches Some(actions) ==> stored.actions.deep_view() == actions,
            texts_read(row.actions@) is None ==> stored.actions@.len() == 0,
    {
        let actions = match crate::json::texts_from_json(row.actions.as_str()) {
            Some(actions) => actions,
            None => {
                let actions: Vec<String> = Vec::new();
                assert(actions.deep_view() =~= seq![]);
                actions
            },
        };
        let mut hints = match crate::json::object_from_json(row.hints.as_str()) {
            Some(entries) => collect_hints(entries),
            None => {
                let hints: NotificationHints = AssocMap::new();
                assert(hints_view(hints) =~= Map::empty());
                hints
            },
        };
        match &row.image_path {
            Some(path) => {
                crate::value::insert_hint(&mut hints, "image-path", Variant::Str(path.clone()));
            },
            None => {},
        }
        StoredNotification {
            id: row.id,
            app_name: row.app_name,
            replaces_id: row.replaces_id,
            app_icon: row.app_icon,
            summary: row.summary,
            body: row.body,
            actions,
            hints,
            image_path: row.image_path,
            expire_timeout: row.expire_timeout,
            timestamp: row.timestamp,
            owner: row.owner,
            source: deserialize_source(row.source),
        }
    }
}

/// Raw image data is never persisted; every other hint is.
pub proof fn law_image_data_is_not_persisted(hints: Map<Seq<char>, VariantView>, key: Seq<char>)
    ensures
        without_image_data(hints).contains_key(key) <==> hints.contains_key(key) && key
            != "image-data"@ && key != "image_data"@ && key != "icon_data"@,
        without_image_data(hints).contains_key(key) ==> without_image_data(hints)[key]
            == hints[key],
{
}

/// A notification with an image file has it as its `image-path` hint after it was read
/// back, whatever its hints said.
pub proof fn law_image_path_becomes_a_hint(row: RowView)
    ensures
        row.image_path matches Some(path) ==> restored(row).hints.contains_key("image-path"@)
            && restored(row).hints["image-path"@] == VariantView::Str(path),
{
}

/// The same source comes back from a stored form exactly when it survives being stored.
pub proof fn law_stored_source_comes_back(source: SourceView)
    ensures
        same_source(source_restored(Some(source_stored(source))), source) <==> source_survives(
            source,
        ),
{
    let back = source_restored(Some(source_stored(source)));
    match source {
        SourceView::Freedesktop => {},
        SourceView::Gtk(dispatch) => {
            let buttons = dispatch.button_actions;
            let returned = actions_restored(actions_stored(buttons));
            assert(back is Gtk);
            assert(back->Gtk_0.button_actions == returned);
            assert(returned.dom() =~= buttons.dom());
            assert forall|key: Seq<char>| #[trigger] buttons.contains_key(key) implies same_action(
                returned[key],
                buttons[key],
            ) == action_survives(buttons[key]) by {
                assert(returned[key] == action_restored(action_stored(buttons[key])));
            }
        },
    }
}

/// A stored form that is missing, or of another kind than `gtk`, is a freedesktop source.
pub proof fn law_unknown_source_is_freedesktop(stored: StoredSourceView)
    ensures
        source_restored(None) is Freedesktop,
        stored.kind != "gtk"@ ==> source_restored(Some(stored)) is Freedesktop,
        stored.gtk is None ==> source_restored(Some(stored)) is Freedesktop,
{
}

} // verus!
