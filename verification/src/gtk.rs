//! The `org.gtk.Notifications` protocol, which GLib/GTK apps use via `GNotification`.

use vstd::prelude::*;
use vstd::string::*;

use crate::assoc::{AssocMap, MapKey};
use crate::monitoring::{EventView, NotificationEvent};
use crate::notification::NotificationProps;
use crate::source::{GtkAction, GtkActionView, GtkDispatch, GtkDispatchView, NotificationSource};
use crate::source::{gtk_actions_view, lemma_gtk_actions_insert};
use crate::text::{begins_with, same_text, strip_text_prefix};
use crate::time::Timestamp;
use crate::types::{ClosedReason, Urgency};
use crate::value::{carried_of, field_text, field_value, hints_view, shape_text};
use crate::value::{carry, insert_hint, owned_string, text_of, try_clone_owned};
use crate::value::{Field, NotificationHints, Shape, Vardict, Variant, VariantView};

verus! {

/// The `"app."` prefix on GNotification detailed action names, stripped before dispatch
/// via `org.freedesktop.Application.ActivateAction`.
pub const APP_ACTION_PREFIX: &'static str = "app.";

/// A path, without the scheme if it is a file URI.
pub open spec fn without_scheme(path: Seq<char>) -> Seq<char> {
    if begins_with(path, "file://"@) {
        path.skip("file://"@.len() as int)
    } else {
        path
    }
}

/// A path, without the scheme if it is a file URI.
pub fn strip_file_uri(path: &str) -> (bare: String)
    ensures
        bare@ == without_scheme(path@),
{
    match strip_text_prefix(path, "file://") {
        Some(rest) => rest.to_owned(),
        None => path.to_owned(),
    }
}

/// The icon of a GTK notification.
pub enum Icon {
    /// No icon, or one of an unknown kind.
    Absent,
    /// A themed icon, by its name.
    Themed(String),
    /// An icon in a file, by its path.
    File(String),
    /// An icon in an image blob.
    Bytes(Vec<u8>),
}

/// What an [`Icon`] denotes.
pub enum IconView {
    /// No icon, or one of an unknown kind.
    Absent,
    /// A themed icon.
    Themed(Seq<char>),
    /// An icon in a file.
    File(Seq<char>),
    /// An icon in an image blob.
    Bytes(Seq<u8>),
}

impl View for Icon {
    type V = IconView;

    open spec fn view(&self) -> IconView {
        match self {
            Icon::Absent => IconView::Absent,
            Icon::Themed(name) => IconView::Themed(name@),
            Icon::File(path) => IconView::File(path@),
            Icon::Bytes(bytes) => IconView::Bytes(bytes@),
        }
    }
}

/// The bytes among some values, in their order.
pub open spec fn byte_values(items: Seq<Shape>) -> Seq<u8>
    decreases items.len(),
{
    if items.len() == 0 {
        seq![]
    } else {
        match items.last() {
            Shape::Byte(byte) => byte_values(items.drop_last()).push(byte),
            _ => byte_values(items.drop_last()),
        }
    }
}

fn collect_bytes(items: &Vec<Shape>) -> (bytes: Vec<u8>)
    ensures
        bytes@ == byte_values(items@),
{
    let mut bytes: Vec<u8> = Vec::new();
    let mut i: usize = 0;
    while i < items.len()
        invariant
            i <= items@.len(),
            bytes@ == byte_values(items@.take(i as int)),
        decreases items@.len() - i,
    {
        proof {
            let more = items@.take(i + 1);
            assert(more.drop_last() =~= items@.take(i as int));
            assert(more.last() == items@[i as int]);
        }
        match &items[i] {
            Shape::Byte(byte) => bytes.push(*byte),
            _ => {},
        }
        i += 1;
    }
    assert(items@.take(items@.len() as int) =~= items@);
    bytes
}

/// The icon that a serialized `GIcon` `(sv)` stands for: a themed icon by its first name,
/// a file icon by its path, a bytes icon by its bytes. Any other shape is no icon.
pub open spec fn icon_of(value: Shape) -> IconView {
    match value {
        Shape::Structure(fields) => if fields@.len() == 2 {
            match (fields@[0], fields@[1]) {
                (Shape::Str(tag), Shape::Nested(payload)) => icon_payload(tag@, *payload),
                _ => IconView::Absent,
            }
        } else {
            IconView::Absent
        },
        _ => IconView::Absent,
    }
}

/// The icon of a kind with a payload.
pub open spec fn icon_payload(tag: Seq<char>, payload: Shape) -> IconView {
    match payload {
        Shape::Array(items) => if tag == "themed"@ && items@.len() > 0 && items@[0] is Str {
            IconView::Themed(items@[0]->Str_0@)
        } else if tag == "bytes"@ {
            IconView::Bytes(byte_values(items@))
        } else {
            IconView::Absent
        },
        Shape::Str(path) => if tag == "file"@ {
            IconView::File(without_scheme(path@))
        } else {
            IconView::Absent
        },
        _ => IconView::Absent,
    }
}

/// The kinds of icons have different names.
pub proof fn lemma_tags_differ()
    ensures
        "themed"@ != "bytes"@,
        "themed"@ != "file"@,
        "bytes"@ != "file"@,
{
    reveal_strlit("themed");
    reveal_strlit("bytes");
    reveal_strlit("file");
    assert("themed"@.len() == 6);
    assert("bytes"@.len() == 5);
    assert("file"@.len() == 4);
}

/// Parses a serialized `GIcon` `(sv)`: a themed icon gives its first name, a file icon its
/// path, a bytes icon its bytes. Unrecognized shapes yield no icon; the shell then falls
/// back to the `desktop-entry` icon.
pub fn parse_icon(value: &Shape) -> (icon: Icon)
    ensures
        icon@ == icon_of(*value),
{
    proof {
        lemma_tags_differ();
    }
    let fields = match value {
        Shape::Structure(fields) => fields,
        _ => {
            return Icon::Absent;
        },
    };
    if fields.len() != 2 {
        return Icon::Absent;
    }
    let tag = match &fields[0] {
        Shape::Str(tag) => tag.as_str(),
        _ => {
            return Icon::Absent;
        },
    };
    let payload: &Shape = match &fields[1] {
        Shape::Nested(payload) => &**payload,
        _ => {
            return Icon::Absent;
        },
    };
    if same_text(tag, "themed") {
        match payload {
            Shape::Array(names) => {
                if names.len() > 0 {
                    match &names[0] {
                        Shape::Str(name) => Icon::Themed(name.clone()),
                        _ => Icon::Absent,
                    }
                } else {
                    Icon::Absent
                }
            },
            _ => Icon::Absent,
        }
    } else if same_text(tag, "file") {
        match payload {
            Shape::Str(path) => Icon::File(strip_file_uri(path.as_str())),
            _ => Icon::Absent,
        }
    } else if same_text(tag, "bytes") {
        match payload {
            Shape::Array(items) => Icon::Bytes(collect_bytes(items)),
            _ => Icon::Absent,
        }
    } else {
        Icon::Absent
    }
}

/// A value, or what is inside it if it is a variant.
pub open spec fn unwrapped(shape: Shape) -> Shape {
    match shape {
        Shape::Nested(inner) => *inner,
        _ => shape,
    }
}

fn unwrap_shape(shape: &Shape) -> (inner: &Shape)
    ensures
        *inner == unwrapped(*shape),
{
    match shape {
        Shape::Nested(inner) => &**inner,
        _ => shape,
    }
}

/// Whether every key of a dictionary is a string.
pub open spec fn keys_are_text(entries: Seq<(Shape, Field)>) -> bool {
    forall|i: int| 0 <= i < entries.len() ==> shape_text((#[trigger] entries[i]).0) is Some
}

/// The value of a dictionary for a string key; the last one, if the key is repeated.
pub open spec fn row_field(entries: Seq<(Shape, Field)>, key: Seq<char>) -> Option<Field>
    decreases entries.len(),
{
    if entries.len() == 0 {
        None
    } else if shape_text(entries.last().0) == Some(key) {
        Some(entries.last().1)
    } else {
        row_field(entries.drop_last(), key)
    }
}

/// The text of a dictionary for a string key.
pub open spec fn row_text(entries: Seq<(Shape, Field)>, key: Seq<char>) -> Option<Seq<char>> {
    match row_field(entries, key) {
        Some(field) => shape_text(unwrapped(field.shape)),
        None => None,
    }
}

/// The value of a dictionary for a string key, to be passed on.
pub open spec fn row_value(entries: Seq<(Shape, Field)>, key: Seq<char>) -> Option<VariantView> {
    match row_field(entries, key) {
        Some(field) => carried_of(unwrapped(field.shape), field.encoded),
        None => None,
    }
}

fn all_keys_are_text(entries: &Vec<(Shape, Field)>) -> (all: bool)
    ensures
        all == keys_are_text(entries@),
{
    let mut i: usize = 0;
    while i < entries.len()
        invariant
            i <= entries@.len(),
            forall|j: int| 0 <= j < i ==> shape_text((#[trigger] entries@[j]).0) is Some,
        decreases entries@.len() - i,
    {
        if text_of(&entries[i].0).is_none() {
            assert(shape_text(entries@[i as int].0) is None);
            return false;
        }
        i += 1;
    }
    true
}

fn find_field<'a>(entries: &'a Vec<(Shape, Field)>, key: &str) -> (field: Option<&'a Field>)
    ensures
        field is Some == row_field(entries@, key@) is Some,
        field matches Some(f) ==> row_field(entries@, key@) == Some(*f),
{
    let mut left: usize = entries.len();
    assert(entries@.take(left as int) =~= entries@);
    while left > 0
        invariant
            left <= entries@.len(),
            row_field(entries@, key@) == row_field(entries@.take(left as int), key@),
        decreases left,
    {
        proof {
            let part = entries@.take(left as int);
            assert(part.last() == entries@[left - 1]);
            assert(part.drop_last() =~= entries@.take(left - 1));
        }
        match text_of(&entries[left - 1].0) {
            Some(name) => {
                if same_text(name.as_str(), key) {
                    return Some(&entries[left - 1].1);
                }
            },
            None => {},
        }
        left -= 1;
    }
    None
}

/// A button of a GTK notification.
pub struct ParsedButton {
    /// The label.
    pub label: String,
    /// The detailed action name.
    pub action: String,
    /// The parameter of the action.
    pub target: Option<Variant>,
}

/// What a [`ParsedButton`] denotes.
pub struct ButtonView {
    /// The label.
    pub label: Seq<char>,
    /// The detailed action name.
    pub action: Seq<char>,
    /// The parameter of the action.
    pub target: Option<VariantView>,
}

impl View for ParsedButton {
    type V = ButtonView;

    open spec fn view(&self) -> ButtonView {
        ButtonView {
            label: self.label@,
            action: self.action@,
            target: self.target.deep_view(),
        }
    }
}

impl DeepView for ParsedButton {
    type V = ButtonView;

    open spec fn deep_view(&self) -> ButtonView {
        self@
    }
}

/// The button that a value stands for: a dictionary with string keys, with a label and an
/// action.
pub open spec fn button_of(value: Shape) -> Option<ButtonView> {
    match value {
        Shape::Dict(row) => match (row_text(row@, "label"@), row_text(row@, "action"@)) {
            (Some(label), Some(action)) if keys_are_text(row@) => Some(
                ButtonView { label, action, target: row_value(row@, "target"@) },
            ),
            _ => None,
        },
        _ => None,
    }
}

/// The buttons among some values, in their order.
pub open spec fn buttons_among(items: Seq<Shape>) -> Seq<ButtonView>
    decreases items.len(),
{
    if items.len() == 0 {
        seq![]
    } else {
        match button_of(items.last()) {
            Some(button) => buttons_among(items.drop_last()).push(button),
            None => buttons_among(items.drop_last()),
        }
    }
}

/// The buttons of a notification: those in an array, and none in anything else.
pub open spec fn buttons_of(value: Option<Field>) -> Seq<ButtonView> {
    match value {
        Some(field) => match field.shape {
            Shape::Array(items) => buttons_among(items@),
            _ => seq![],
        },
        None => seq![],
    }
}

fn parse_button(value: &Shape) -> (button: Option<ParsedButton>)
    ensures
        button.deep_view() == button_of(*value),
{
    let row = match value {
        Shape::Dict(row) => row,
        _ => {
            return None;
        },
    };
    if !all_keys_are_text(row) {
        return None;
    }
    let label = match find_field(row, "label") {
        Some(field) => text_of(unwrap_shape(&field.shape)),
        None => None,
    };
    let action = match find_field(row, "action") {
        Some(field) => text_of(unwrap_shape(&field.shape)),
        None => None,
    };
    let target = match find_field(row, "target") {
        Some(field) => carry(unwrap_shape(&field.shape), &field.encoded),
        None => None,
    };
    assert(label.deep_view() == row_text(row@, "label"@));
    assert(action.deep_view() == row_text(row@, "action"@));
    assert(target.deep_view() == row_value(row@, "target"@));
    match (label, action) {
        (Some(label), Some(action)) => Some(ParsedButton { label, action, target }),
        _ => None,
    }
}

/// Parses the buttons of a notification. Entries that are not buttons are left out.
pub fn parse_buttons(value: Option<&Field>) -> (buttons: Vec<ParsedButton>)
    ensures
        buttons.deep_view() == buttons_of(
            match value {
                Some(field) => Some(*field),
                None => None,
            },
        ),
{
    let mut buttons: Vec<ParsedButton> = Vec::new();
    assert(buttons.deep_view() =~= seq![]);
    let field = match value {
        Some(field) => field,
        None => {
            return buttons;
        },
    };
    let items = match &field.shape {
        Shape::Array(items) => items,
        _ => {
            return buttons;
        },
    };
    let mut i: usize = 0;
    while i < items.len()
        invariant
            i <= items@.len(),
            buttons.deep_view() == buttons_among(items@.take(i as int)),
        decreases items@.len() - i,
    {
        let ghost before = buttons.deep_view();
        proof {
            let more = items@.take(i + 1);
            assert(more.drop_last() =~= items@.take(i as int));
            assert(more.last() == items@[i as int]);
        }
        match parse_button(&items[i]) {
            Some(button) => {
                let ghost pushed = button@;
                buttons.push(button);
                assert(buttons.deep_view() =~= before.push(pushed));
            },
            None => {},
        }
        i += 1;
    }
    assert(items@.take(items@.len() as int) =~= items@);
    buttons
}

/// The hints that carry the urgency, the application, and the image file.
pub open spec fn hints_for(urgency: Urgency, image_path: Option<Seq<char>>, app_id: Seq<char>) -> Map<
    Seq<char>,
    VariantView,
> {
    let hints = Map::<Seq<char>, VariantView>::empty().insert(
        "urgency"@,
        VariantView::Byte(urgency.spec_level()),
    ).insert("desktop-entry"@, VariantView::Str(app_id));
    match image_path {
        Some(path) => hints.insert("image-path"@, VariantView::Str(path)),
        None => hints,
    }
}

/// Builds the synthetic hints map from which urgency, the icon file path, and the desktop
/// entry (used by the shell for icon resolution) are derived.
pub fn build_hints(urgency: Urgency, image_path: Option<&str>, app_id: &str) -> (hints:
    NotificationHints)
    ensures
        hints_view(hints) == hints_for(
            urgency,
            match image_path {
                Some(path) => Some(path@),
                None => None,
            },
            app_id@,
        ),
{
    let mut hints: NotificationHints = AssocMap::new();
    assert(hints_view(hints) =~= Map::<Seq<char>, VariantView>::empty());
    insert_hint(&mut hints, "urgency", Variant::Byte(urgency.level()));
    insert_hint(&mut hints, "desktop-entry", Variant::Str(app_id.to_owned()));
    match image_path {
        Some(path) => insert_hint(&mut hints, "image-path", Variant::Str(path.to_owned())),
        None => {},
    }
    hints
}

/// The pieces of an incoming `a{sv}` GTK notification.
pub struct ParsedGtkNotification {
    /// The title.
    pub title: String,
    /// The body text.
    pub body: Option<String>,
    /// Themed icon name (drives `app_icon`), if the icon was a themed GIcon.
    pub app_icon: Option<String>,
    /// Synthetic hints carrying urgency (+ image-path / desktop-entry).
    pub hints: NotificationHints,
    /// Flat `[id, label, ...]` of the buttons for display (`id` = `"app."`-prefixed name).
    pub actions_flat: Vec<String>,
    /// What the actions are dispatched to.
    pub dispatch: GtkDispatch,
}

/// What a [`ParsedGtkNotification`] denotes.
pub struct ParsedView {
    /// The title.
    pub title: Seq<char>,
    /// The body text.
    pub body: Option<Seq<char>>,
    /// Themed icon name.
    pub app_icon: Option<Seq<char>>,
    /// The hints.
    pub hints: Map<Seq<char>, VariantView>,
    /// The buttons as a flat list.
    pub actions_flat: Seq<Seq<char>>,
    /// What the actions are dispatched to.
    pub dispatch: GtkDispatchView,
}

impl View for ParsedGtkNotification {
    type V = ParsedView;

    open spec fn view(&self) -> ParsedView {
        ParsedView {
            title: self.title@,
            body: self.body.deep_view(),
            app_icon: self.app_icon.deep_view(),
            hints: hints_view(self.hints),
            actions_flat: self.actions_flat.deep_view(),
            dispatch: self.dispatch@,
        }
    }
}

/// The urgency of a priority: only `urgent` is critical and only `low` is low.
pub open spec fn urgency_of(priority: Option<Seq<char>>) -> Urgency {
    if priority == Some("urgent"@) {
        Urgency::Critical
    } else if priority == Some("low"@) {
        Urgency::Low
    } else {
        Urgency::Normal
    }
}

/// The icon of a notification.
pub open spec fn notification_icon(map: Map<Seq<char>, Field>) -> IconView {
    if map.contains_key("icon"@) {
        icon_of(map["icon"@].shape)
    } else {
        IconView::Absent
    }
}

/// Whether an action belongs to the application, so that it can be dispatched.
pub open spec fn is_app_action(action: Seq<char>) -> bool {
    begins_with(action, APP_ACTION_PREFIX@)
}

/// The action that a detailed name and a parameter stand for.
pub open spec fn app_action(action: Seq<char>, target: Option<VariantView>) -> GtkActionView {
    GtkActionView { name: action.skip(APP_ACTION_PREFIX@.len() as int), target }
}

/// The flat list of the buttons that can be dispatched: the action of each, then its label.
pub open spec fn flat_buttons(buttons: Seq<ButtonView>) -> Seq<Seq<char>>
    decreases buttons.len(),
{
    if buttons.len() == 0 {
        seq![]
    } else {
        let button = buttons.last();
        if is_app_action(button.action) {
            flat_buttons(buttons.drop_last()) + seq![button.action, button.label]
        } else {
            flat_buttons(buttons.drop_last())
        }
    }
}

/// The actions of the buttons that can be dispatched, by their detailed names.
pub open spec fn button_map(buttons: Seq<ButtonView>) -> Map<Seq<char>, GtkActionView>
    decreases buttons.len(),
{
    if buttons.len() == 0 {
        Map::empty()
    } else {
        let button = buttons.last();
        if is_app_action(button.action) {
            button_map(buttons.drop_last()).insert(
                button.action,
                app_action(button.action, button.target),
            )
        } else {
            button_map(buttons.drop_last())
        }
    }
}

/// The buttons field of a notification.
pub open spec fn buttons_field(map: Map<Seq<char>, Field>) -> Option<Field> {
    if map.contains_key("buttons"@) {
        Some(map["buttons"@])
    } else {
        None
    }
}

/// The default action of a notification: none unless it belongs to the application.
pub open spec fn default_action_of(map: Map<Seq<char>, Field>) -> Option<GtkActionView> {
    match field_text(map, "default-action"@) {
        Some(action) => if is_app_action(action) {
            Some(app_action(action, field_value(map, "default-action-target"@)))
        } else {
            None
        },
        None => None,
    }
}

/// The image file of a notification: that of a file icon, or that at which the bytes of a
/// bytes icon were cached.
pub open spec fn image_path_of(icon: IconView, cached_icon: Option<Seq<char>>) -> Option<Seq<char>> {
    match icon {
        IconView::File(path) => Some(path),
        IconView::Bytes(bytes) => cached_icon,
        _ => None,
    }
}

/// What a notification of an application consists of.
pub open spec fn parsed_view(
    app_id: Seq<char>,
    gtk_id: Seq<char>,
    map: Map<Seq<char>, Field>,
    cached_icon: Option<Seq<char>>,
) -> ParsedView {
    let icon = notification_icon(map);
    let buttons = buttons_of(buttons_field(map));
    ParsedView {
        title: match field_text(map, "title"@) {
            Some(title) => title,
            None => seq![],
        },
        body: field_text(map, "body"@),
        app_icon: match icon {
            IconView::Themed(name) => Some(name),
            _ => None,
        },
        hints: hints_for(
            urgency_of(field_text(map, "priority"@)),
            image_path_of(icon, cached_icon),
            app_id,
        ),
        actions_flat: flat_buttons(buttons),
        dispatch: GtkDispatchView {
            app_id,
            gtk_id,
            default_action: default_action_of(map),
            button_actions: button_map(buttons),
        },
    }
}

fn lookup<'a>(map: &'a Vardict, key: &str) -> (field: Option<&'a Field>)
    ensures
        field is Some == map@.contains_key(key@),
        field matches Some(f) ==> *f == map@[key@],
{
    map.get(&key.to_owned())
}

fn lookup_text(map: &Vardict, key: &str) -> (text: Option<String>)
    ensures
        text.deep_view() == field_text(map@, key@),
{
    owned_string(lookup(map, key))
}

/// The icon of a notification. The bytes of a bytes icon are to be cached as a file.
pub fn icon_field(map: &Vardict) -> (icon: Icon)
    ensures
        icon@ == notification_icon(map@),
{
    match lookup(map, "icon") {
        Some(field) => parse_icon(&field.shape),
        None => Icon::Absent,
    }
}

impl ParsedGtkNotification {
    /// Reads a notification. `cached_icon` is the path at which the bytes of a bytes icon
    /// were cached, if they were.
    pub fn from_vardict(
        app_id: &str,
        gtk_id: &str,
        map: &Vardict,
        cached_icon: Option<String>,
    ) -> (parsed: ParsedGtkNotification)
        ensures
            parsed@ == parsed_view(app_id@, gtk_id@, map@, cached_icon.deep_view()),
    {
        let ghost cached = cached_icon.deep_view();
        let title = match lookup_text(map, "title") {
            Some(title) => title,
            None => String::new(),
        };
        let body = lookup_text(map, "body");
        let priority = lookup_text(map, "priority");
        let urgency = match &priority {
            Some(priority) => {
                if same_text(priority.as_str(), "urgent") {
                    Urgency::Critical
                } else if same_text(priority.as_str(), "low") {
                    Urgency::Low
                } else {
                    Urgency::Normal
                }
            },
            None => Urgency::Normal,
        };
        assert(urgency == urgency_of(field_text(map@, "priority"@)));

        let mut app_icon: Option<String> = None;
        let mut image_path: Option<String> = None;
        match icon_field(map) {
            Icon::Absent => {},
            Icon::Themed(name) => {
                app_icon = Some(name);
            },
            Icon::File(path) => {
                image_path = Some(path);
            },
            Icon::Bytes(bytes) => {
                image_path = cached_icon;
            },
        }
        assert(image_path.deep_view() == image_path_of(notification_icon(map@), cached));

        let buttons = parse_buttons(lookup(map, "buttons"));
        let ghost listed = buttons.deep_view();
        assert(listed == buttons_of(buttons_field(map@)));
        let mut actions_flat: Vec<String> = Vec::new();
        let mut button_actions: AssocMap<String, GtkAction> = AssocMap::new();
        let mut i: usize = 0;
        assert(listed.take(0) =~= seq![]);
        assert(actions_flat.deep_view() =~= flat_buttons(seq![]));
        assert(gtk_actions_view(button_actions@) =~= button_map(seq![]));
        while i < buttons.len()
            invariant
                i <= buttons@.len(),
                listed == buttons.deep_view(),
                actions_flat.deep_view() == flat_buttons(listed.take(i as int)),
                gtk_actions_view(button_actions@) == button_map(listed.take(i as int)),
            decreases buttons@.len() - i,
        {
            let button = &buttons[i];
            let ghost flat = actions_flat.deep_view();
            let ghost known = button_actions@;
            proof {
                let more = listed.take(i + 1);
                assert(more.drop_last() =~= listed.take(i as int));
                assert(more.last() == button@);
            }
            match strip_text_prefix(button.action.as_str(), APP_ACTION_PREFIX) {
                Some(name) => {
                    let action = GtkAction {
                        name: name.to_owned(),
                        target: crate::value::copy_optional_variant(&button.target),
                    };
                    assert(action@ == app_action(button@.action, button@.target));
                    proof {
                        lemma_gtk_actions_insert(known, button.action@, action);
                    }
                    button_actions.insert(button.action.clone(), action);
                    actions_flat.push(button.action.clone());
                    actions_flat.push(button.label.clone());
                    assert(actions_flat.deep_view() =~= flat + seq![button@.action, button@.label]);
                },
                None => {},
            }
            i += 1;
        }
        assert(listed.take(listed.len() as int) =~= listed);

        let default_action = match lookup_text(map, "default-action") {
            Some(action) => match strip_text_prefix(action.as_str(), APP_ACTION_PREFIX) {
                Some(name) => {
                    let target = match lookup(map, "default-action-target") {
                        Some(field) => try_clone_owned(field),
                        None => None,
                    };
                    Some(GtkAction { name: name.to_owned(), target })
                },
                None => None,
            },
            None => None,
        };
        assert(default_action.deep_view() == default_action_of(map@));

        let hints = match &image_path {
            Some(path) => build_hints(urgency, Some(path.as_str()), app_id),
            None => build_hints(urgency, None, app_id),
        };

        ParsedGtkNotification {
            title,
            body,
            app_icon,
            hints,
            actions_flat,
            dispatch: GtkDispatch {
                app_id: app_id.to_owned(),
                gtk_id: gtk_id.to_owned(),
                default_action,
                button_actions,
            },
        }
    }
}

/// What identifies a GTK notification: the application, and the id that it chose.
pub struct GtkKey {
    /// The application id.
    pub app_id: String,
    /// The app-chosen notification id.
    pub gtk_id: String,
}

impl View for GtkKey {
    type V = (Seq<char>, Seq<char>);

    open spec fn view(&self) -> (Seq<char>, Seq<char>) {
        (self.app_id@, self.gtk_id@)
    }
}

impl MapKey for GtkKey {
    fn same_key(&self, other: &Self) -> (same: bool) {
        self.app_id == other.app_id && self.gtk_id == other.gtk_id
    }
}

/// The name that a notification is shown and blocked under: the human-readable name of
/// the application, or its id if it has none.
pub fn display_name(app_id: &str, resolved_name: Option<String>) -> (name: String)
    ensures
        name@ == (match resolved_name {
            Some(resolved) => resolved@,
            None => app_id@,
        }),
{
    match resolved_name {
        Some(resolved) => resolved,
        None => app_id.to_owned(),
    }
}

/// Whether an application is blocked: whether any pattern of the blocklist matches its
/// name. `matches` says whether a pattern matches a name.
pub fn is_blocked<F: Fn(&String, &String) -> bool>(
    blocklist: &[String],
    app_name: &String,
    matches: F,
) -> (blocked: bool)
    requires
        forall|i: int|
            0 <= i < blocklist@.len() ==> call_requires(
                matches,
                (&#[trigger] blocklist@[i], app_name),
            ),
    ensures
        blocked ==> exists|i: int|
            0 <= i < blocklist@.len() && call_ensures(
                matches,
                (&#[trigger] blocklist@[i], app_name),
                true,
            ),
        !blocked ==> forall|i: int|
            0 <= i < blocklist@.len() ==> call_ensures(
                matches,
                (&#[trigger] blocklist@[i], app_name),
                false,
            ),
{
    let mut i: usize = 0;
    while i < blocklist.len()
        invariant
            i <= blocklist@.len(),
            forall|j: int|
                0 <= j < blocklist@.len() ==> call_requires(
                    matches,
                    (&#[trigger] blocklist@[j], app_name),
                ),
            forall|j: int|
                0 <= j < i ==> call_ensures(
                    matches,
                    (&#[trigger] blocklist@[j], app_name),
                    false,
                ),
        decreases blocklist@.len() - i,
    {
        if matches(&blocklist[i], app_name) {
            assert(call_ensures(matches, (&blocklist@[i as int], app_name), true));
            return true;
        }
        i += 1;
    }
    false
}

/// The state of the `org.gtk.Notifications` service.
pub struct GtkNotificationsDaemon {
    /// Maps an application and its notification id to the synthesized id, so a re-send
    /// with the same key replaces in place and a withdrawal can find the id.
    pub keys: AssocMap<GtkKey, u32>,
}

impl View for GtkNotificationsDaemon {
    type V = Map<(Seq<char>, Seq<char>), u32>;

    open spec fn view(&self) -> Map<(Seq<char>, Seq<char>), u32> {
        self.keys@
    }
}

/// What a notification of the GTK protocol is made from, given the id that it gets.
pub open spec fn is_made_from(
    props: NotificationProps,
    id: u32,
    app_name: Seq<char>,
    parsed: ParsedView,
    now: int,
) -> bool {
    &&& props.id == id
    &&& props.app_name@ == app_name
    &&& props.replaces_id == 0
    &&& props.app_icon@ == (match parsed.app_icon {
        Some(icon) => icon,
        None => seq![],
    })
    &&& props.summary@ == parsed.title
    &&& props.body@ == (match parsed.body {
        Some(body) => body,
        None => seq![],
    })
    &&& props.actions.deep_view() == parsed.actions_flat
    &&& hints_view(props.hints) == parsed.hints
    &&& props.expire_timeout == -1
    &&& props.timestamp@ == now
    &&& props.owner is None
    &&& props.source@ == crate::source::SourceView::Gtk(parsed.dispatch)
}

impl GtkNotificationsDaemon {
    /// A service without notifications.
    pub fn new() -> (daemon: GtkNotificationsDaemon)
        ensures
            daemon@ == Map::<(Seq<char>, Seq<char>), u32>::empty(),
    {
        GtkNotificationsDaemon { keys: AssocMap::new() }
    }

    /// Reuses the id for an existing key (so a re-send replaces in place); otherwise takes
    /// a fresh id and records the mapping.
    pub fn resolve_id<F: FnOnce() -> u32>(&mut self, app_id: &str, gtk_id: &str, next_id: F) -> (id:
        u32)
        requires
            !old(self)@.contains_key((app_id@, gtk_id@)) ==> call_requires(next_id, ()),
        ensures
            old(self)@.contains_key((app_id@, gtk_id@)) ==> id == old(self)@[(app_id@, gtk_id@)],
            !old(self)@.contains_key((app_id@, gtk_id@)) ==> call_ensures(next_id, (), id),
            final(self)@ == old(self)@.insert((app_id@, gtk_id@), id),
    {
        let key = GtkKey { app_id: app_id.to_owned(), gtk_id: gtk_id.to_owned() };
        match self.keys.get(&key) {
            Some(id) => {
                assert(self@ =~= self@.insert((app_id@, gtk_id@), *id));
                return *id;
            },
            None => {},
        }
        let id: u32 = next_id();
        self.keys.insert(key, id);
        id
    }

    /// Forgets a key, and gives the id that it had.
    pub fn take_id(&mut self, app_id: &str, gtk_id: &str) -> (id: Option<u32>)
        ensures
            final(self)@ == old(self)@.remove((app_id@, gtk_id@)),
            id == (if old(self)@.contains_key((app_id@, gtk_id@)) {
                Some(old(self)@[(app_id@, gtk_id@)])
            } else {
                None
            }),
    {
        let key = GtkKey { app_id: app_id.to_owned(), gtk_id: gtk_id.to_owned() };
        self.keys.remove(&key)
    }

    /// Adds (or replaces, if the key of application and notification already exists) a GTK
    /// notification at a given time. A blocked one leaves everything as it is.
    ///
    /// GTK notifications carry no timeout; they are kept in history until removed.
    pub fn add_notification_at<F: FnOnce() -> u32>(
        &mut self,
        app_id: String,
        notification_id: String,
        notification: &Vardict,
        app_name: String,
        blocked: bool,
        cached_icon: Option<String>,
        next_id: F,
        now: Timestamp,
    ) -> (props: Option<NotificationProps>)
        requires
            !blocked && !old(self)@.contains_key((app_id@, notification_id@)) ==> call_requires(
                next_id,
                (),
            ),
        ensures
            props is None == blocked,
            blocked ==> final(self)@ == old(self)@,
            props matches Some(p) ==> {
                &&& old(self)@.contains_key((app_id@, notification_id@)) ==> p.id == old(self)@[(
                    app_id@,
                    notification_id@,
                )]
                &&& !old(self)@.contains_key((app_id@, notification_id@)) ==> call_ensures(
                    next_id,
                    (),
                    p.id,
                )
                &&& final(self)@ == old(self)@.insert((app_id@, notification_id@), p.id)
                &&& is_made_from(
                    p,
                    p.id,
                    app_name@,
                    parsed_view(
                        app_id@,
                        notification_id@,
                        notification@,
                        cached_icon.deep_view(),
                    ),
                    now@,
                )
            },
    {
        if blocked {
            return None;
        }
        let parsed = ParsedGtkNotification::from_vardict(
            app_id.as_str(),
            notification_id.as_str(),
            notification,
            cached_icon,
        );
        let id: u32 = self.resolve_id(app_id.as_str(), notification_id.as_str(), next_id);
        let app_icon = match parsed.app_icon {
            Some(icon) => icon,
            None => String::new(),
        };
        let body = match parsed.body {
            Some(body) => body,
            None => String::new(),
        };
        Some(
            NotificationProps {
                id,
                app_name,
                replaces_id: 0,
                app_icon,
                summary: parsed.title,
                body,
                actions: parsed.actions_flat,
                hints: parsed.hints,
                expire_timeout: -1,
                timestamp: now,
                owner: None,
                source: NotificationSource::Gtk(parsed.dispatch),
            },
        )
    }

    /// Adds (or replaces) a GTK notification at the current time.
    pub fn add_notification<F: FnOnce() -> u32>(
        &mut self,
        app_id: String,
        notification_id: String,
        notification: &Vardict,
        app_name: String,
        blocked: bool,
        cached_icon: Option<String>,
        next_id: F,
    ) -> (props: Option<NotificationProps>)
        requires
            !blocked && !old(self)@.contains_key((app_id@, notification_id@)) ==> call_requires(
                next_id,
                (),
            ),
        ensures
            props is None == blocked,
            blocked ==> final(self)@ == old(self)@,
            props matches Some(p) ==> {
                &&& crate::time::is_time(p.timestamp@)
                &&& old(self)@.contains_key((app_id@, notification_id@)) ==> p.id == old(self)@[(
                    app_id@,
                    notification_id@,
                )]
                &&& !old(self)@.contains_key((app_id@, notification_id@)) ==> call_ensures(
                    next_id,
                    (),
                    p.id,
                )
                &&& final(self)@ == old(self)@.insert((app_id@, notification_id@), p.id)
                &&& is_made_from(
                    p,
                    p.id,
                    app_name@,
                    parsed_view(
                        app_id@,
                        notification_id@,
                        notification@,
                        cached_icon.deep_view(),
                    ),
                    p.timestamp@,
                )
            },
    {
        let now = Timestamp::now();
        self.add_notification_at(
            app_id,
            notification_id,
            notification,
            app_name,
            blocked,
            cached_icon,
            next_id,
            now,
        )
    }

    /// Withdraws a notification previously added with the same key: it is to be removed as
    /// closed. Nothing happens for an unknown key.
    pub fn remove_notification(&mut self, app_id: &str, notification_id: &str) -> (event: Option<
        NotificationEvent,
    >)
        ensures
            final(self)@ == old(self)@.remove((app_id@, notification_id@)),
            event is Some == old(self)@.contains_key((app_id@, notification_id@)),
            event matches Some(e) ==> e@ == EventView::Remove(
                old(self)@[(app_id@, notification_id@)],
                ClosedReason::Closed,
            ),
    {
        match self.take_id(app_id, notification_id) {
            Some(id) => Some(NotificationEvent::Remove(id, ClosedReason::Closed)),
            None => None,
        }
    }
}

/// Whether no two keys share an id.
pub open spec fn ids_distinct(keys: Map<(Seq<char>, Seq<char>), u32>) -> bool {
    forall|a: (Seq<char>, Seq<char>), b: (Seq<char>, Seq<char>)| #[trigger]
        keys.contains_key(a) && #[trigger] keys.contains_key(b) && a != b ==> keys[a] != keys[b]
}

/// Whether some key has an id.
pub open spec fn id_in_use(keys: Map<(Seq<char>, Seq<char>), u32>, id: u32) -> bool {
    exists|a: (Seq<char>, Seq<char>)| #[trigger] keys.contains_key(a) && keys[a] == id
}

/// The id that a key gets, when the counter would give `fresh`.
pub open spec fn resolved_id(
    keys: Map<(Seq<char>, Seq<char>), u32>,
    key: (Seq<char>, Seq<char>),
    fresh: u32,
) -> u32 {
    if keys.contains_key(key) {
        keys[key]
    } else {
        fresh
    }
}

/// Sending a notification again under the same key gives the same id, whatever the counter
/// would give, and leaves the keys as they were after the first time.
pub proof fn law_resend_keeps_the_id(
    keys: Map<(Seq<char>, Seq<char>), u32>,
    key: (Seq<char>, Seq<char>),
    fresh: u32,
    later: u32,
)
    ensures
        ({
            let id = resolved_id(keys, key, fresh);
            let once = keys.insert(key, id);
            resolved_id(once, key, later) == id && once.insert(
                key,
                resolved_id(once, key, later),
            ) == once
        }),
{
    let id = resolved_id(keys, key, fresh);
    let once = keys.insert(key, id);
    assert(once.insert(key, id) =~= once);
}

/// Withdrawing a notification that was just added gives the id that it was added under,
/// and leaves no trace of a key that was new.
pub proof fn law_withdrawal_undoes_adding(
    keys: Map<(Seq<char>, Seq<char>), u32>,
    key: (Seq<char>, Seq<char>),
    fresh: u32,
)
    ensures
        ({
            let id = resolved_id(keys, key, fresh);
            let added = keys.insert(key, id);
            &&& added.contains_key(key)
            &&& added[key] == id
            &&& added.remove(key) == keys.remove(key)
            &&& !keys.contains_key(key) ==> added.remove(key) == keys
        }),
{
    let id = resolved_id(keys, key, fresh);
    let added = keys.insert(key, id);
    assert(added.remove(key) =~= keys.remove(key));
    if !keys.contains_key(key) {
        assert(added.remove(key) =~= keys);
    }
}

/// As long as the counter gives ids that are not in use, no two notifications share an id,
/// whether one is added or withdrawn.
pub proof fn law_gtk_ids_stay_distinct(
    keys: Map<(Seq<char>, Seq<char>), u32>,
    key: (Seq<char>, Seq<char>),
    fresh: u32,
)
    requires
        ids_distinct(keys),
        !id_in_use(keys, fresh),
    ensures
        ids_distinct(keys.insert(key, resolved_id(keys, key, fresh))),
        ids_distinct(keys.remove(key)),
{
    let id = resolved_id(keys, key, fresh);
    let added = keys.insert(key, id);
    assert forall|a: (Seq<char>, Seq<char>), b: (Seq<char>, Seq<char>)| #[trigger]
        added.contains_key(a) && #[trigger] added.contains_key(b) && a != b implies added[a]
        != added[b] by {
        if a != key {
            assert(keys.contains_key(a));
        }
        if b != key {
            assert(keys.contains_key(b));
        }
    }
    assert forall|a: (Seq<char>, Seq<char>), b: (Seq<char>, Seq<char>)| #[trigger]
        keys.remove(key).contains_key(a) && #[trigger] keys.remove(key).contains_key(b) && a
            != b implies keys.remove(key)[a] != keys.remove(key)[b] by {
        assert(keys.contains_key(a));
        assert(keys.contains_key(b));
    }
}

/// Every action of a notification that is offered as a button can be dispatched: its id
/// begins with `app.` and is among the button actions.
pub proof fn law_offered_actions_are_dispatchable(buttons: Seq<ButtonView>, i: int)
    requires
        0 <= i,
        2 * i < flat_buttons(buttons).len(),
    ensures
        flat_buttons(buttons).len() % 2 == 0,
        is_app_action(flat_buttons(buttons)[2 * i]),
        button_map(buttons).contains_key(flat_buttons(buttons)[2 * i]),
    decreases buttons.len(),
{
    let front = flat_buttons(buttons.drop_last());
    lemma_flat_is_even(buttons.drop_last());
    if 2 * i < front.len() {
        law_offered_actions_are_dispatchable(buttons.drop_last(), i);
    }
}

proof fn lemma_flat_is_even(buttons: Seq<ButtonView>)
    ensures
        flat_buttons(buttons).len() % 2 == 0,
    decreases buttons.len(),
{
    if buttons.len() > 0 {
        lemma_flat_is_even(buttons.drop_last());
    }
}

/// The button actions hold nothing but what the buttons of the application ask for.
pub proof fn law_button_actions_come_from_buttons(buttons: Seq<ButtonView>, key: Seq<char>)
    requires
        button_map(buttons).contains_key(key),
    ensures
        is_app_action(key),
        exists|i: int|
            0 <= i < buttons.len() && (#[trigger] buttons[i]).action == key && button_map(
                buttons,
            )[key] == app_action(key, buttons[i].target),
    decreases buttons.len(),
{
    let last = buttons.last();
    if is_app_action(last.action) && last.action == key {
        assert(buttons[buttons.len() - 1].action == key);
    } else {
        let front = buttons.drop_last();
        law_button_actions_come_from_buttons(front, key);
        let i = choose|i: int|
            0 <= i < front.len() && (#[trigger] front[i]).action == key && button_map(front)[key]
                == app_action(key, front[i].target);
        assert(buttons[i].action == key);
    }
}

} // verus!
