//! What a GTK notification becomes, by what the application sent.

use vstd::prelude::*;

use crate::gtk::{
    app_action, button_map, button_of, buttons_among, byte_values, flat_buttons, is_app_action,
    is_made_from, keys_are_text, notification_icon, parsed_view, row_field, without_scheme,
};
use crate::gtk::{ButtonView, IconView, ParsedGtkNotification};
use crate::notification::NotificationProps;
use crate::source::{GtkAction, GtkDispatch};
use crate::value::{carried, hints_view, shape_text};
use crate::value::{Field, Shape, VariantView};

verus! {

/// An action belongs to the application exactly if it is `app.` and then a name, and that
/// name is what is dispatched.
pub proof fn law_app_actions_have_the_prefix(
    action: Seq<char>,
    name: Seq<char>,
    target: Option<VariantView>,
)
    ensures
        is_app_action("app."@ + name),
        app_action("app."@ + name, target).name == name,
        app_action(action, target).target == target,
        is_app_action(action) ==> action == "app."@ + app_action(action, target).name,
{
    let whole = "app."@ + name;
    assert(whole.take("app."@.len() as int) =~= "app."@);
    assert(whole.skip("app."@.len() as int) =~= name);
    if is_app_action(action) {
        assert(action =~= "app."@ + action.skip("app."@.len() as int));
    }
}

/// Every button whose action begins with `app.` is offered, in the order of the buttons and
/// with its own label, and no other: the flat list has twice as many texts as there are
/// such buttons, and for each of them in turn its action and then its label.
pub proof fn law_every_app_button_is_offered(buttons: Seq<ButtonView>, k: int)
    ensures
        ({
            let offered = buttons.filter(
                |b: ButtonView| b.action.len() >= 4 && b.action.take(4) == "app."@,
            );
            let flat = flat_buttons(buttons);
            &&& flat.len() == 2 * offered.len()
            &&& 0 <= k < offered.len() ==> flat[2 * k] == offered[k].action && flat[2 * k + 1]
                == offered[k].label
        }),
    decreases buttons.len(),
{
    reveal_strlit("app.");
    reveal(Seq::filter);
    assert("app."@.len() == 4);
    let pred = |b: ButtonView| b.action.len() >= 4 && b.action.take(4) == "app."@;
    if buttons.len() > 0 {
        law_every_app_button_is_offered(buttons.drop_last(), k);
        assert(pred(buttons.last()) == is_app_action(buttons.last().action));
    }
}

/// The flat list of two runs of buttons is that of the first and then that of the second.
pub proof fn law_buttons_are_offered_in_order(a: Seq<ButtonView>, b: Seq<ButtonView>)
    ensures
        flat_buttons(a + b) == flat_buttons(a) + flat_buttons(b),
    decreases b.len(),
{
    if b.len() == 0 {
        assert(a + b =~= a);
        assert(flat_buttons(a) + flat_buttons(b) =~= flat_buttons(a));
    } else {
        law_buttons_are_offered_in_order(a, b.drop_last());
        assert((a + b).drop_last() =~= a + b.drop_last());
        assert(flat_buttons(a + b) =~= flat_buttons(a) + flat_buttons(b));
    }
}

/// A button whose action is `app.` and a name dispatches that name with the button's own
/// target; of several buttons with the same action, the last one decides. No other button
/// dispatches anything.
pub proof fn law_buttons_dispatch_their_own_action(
    buttons: Seq<ButtonView>,
    at: int,
    name: Seq<char>,
)
    requires
        0 <= at < buttons.len(),
        buttons[at].action == "app."@ + name,
        forall|i: int| at < i < buttons.len() ==> (#[trigger] buttons[i]).action != buttons[at].action,
    ensures
        button_map(buttons).contains_key(buttons[at].action),
        button_map(buttons)[buttons[at].action].name == name,
        button_map(buttons)[buttons[at].action].target == buttons[at].target,
    decreases buttons.len(),
{
    let front = buttons.drop_last();
    law_app_actions_have_the_prefix(buttons[at].action, name, buttons[at].target);
    if at < front.len() {
        assert(buttons[buttons.len() - 1].action != buttons[at].action);
        assert forall|i: int| at < i < front.len() implies (#[trigger] front[i]).action
            != front[at].action by {
            assert(buttons[i].action != buttons[at].action);
        }
        law_buttons_dispatch_their_own_action(front, at, name);
    }
}

/// A notification dispatches exactly the actions that it offers.
pub proof fn law_dispatched_is_offered(buttons: Seq<ButtonView>, key: Seq<char>)
    ensures
        button_map(buttons).contains_key(key) == exists|k: int|
            0 <= k && 2 * k + 1 < flat_buttons(buttons).len() && #[trigger] flat_buttons(
                buttons,
            )[2 * k] == key,
    decreases buttons.len(),
{
    if buttons.len() > 0 {
        let front = buttons.drop_last();
        let fewer = flat_buttons(front);
        let more = flat_buttons(buttons);
        law_dispatched_is_offered(front, key);
        law_every_app_button_is_offered(front, 0);
        assert(fewer.len() % 2 == 0);
        if button_map(buttons).contains_key(key) {
            if button_map(front).contains_key(key) {
                let k = choose|k: int|
                    0 <= k && 2 * k + 1 < fewer.len() && #[trigger] fewer[2 * k] == key;
                assert(more[2 * k] == key);
            } else {
                let k = fewer.len() as int / 2;
                assert(more[2 * k] == key);
            }
        }
        if exists|k: int| 0 <= k && 2 * k + 1 < more.len() && #[trigger] more[2 * k] == key {
            let k = choose|k: int| 0 <= k && 2 * k + 1 < more.len() && #[trigger] more[2 * k]
                == key;
            if 2 * k < fewer.len() {
                assert(fewer[2 * k] == key);
            }
        }
    }
}

/// Buttons are read one by one: those of two parts are those of the first and then those of
/// the second, and a value gives its button, or nothing if it is none.
pub proof fn law_buttons_are_read_one_by_one(a: Seq<Shape>, b: Seq<Shape>, item: Shape)
    ensures
        buttons_among(a + b) == buttons_among(a) + buttons_among(b),
        button_of(item) matches Some(button) ==> buttons_among(seq![item]) == seq![button],
        button_of(item) is None ==> buttons_among(seq![item]).len() == 0,
    decreases b.len(),
{
    reveal_with_fuel(buttons_among, 2);
    assert(seq![item].drop_last() =~= Seq::<Shape>::empty());
    assert(button_of(item) matches Some(button) ==> buttons_among(seq![item]) =~= seq![button]);
    if b.len() == 0 {
        assert(a + b =~= a);
        assert(buttons_among(a) + buttons_among(b) =~= buttons_among(a));
    } else {
        law_buttons_are_read_one_by_one(a, b.drop_last(), item);
        assert((a + b).drop_last() =~= a + b.drop_last());
        assert(buttons_among(a + b) =~= buttons_among(a) + buttons_among(b));
    }
}

/// Of a dictionary, the last entry with a key decides; there is none without one.
pub proof fn law_last_entry_decides(entries: Seq<(Shape, Field)>, key: Seq<char>, at: int)
    ensures
        0 <= at < entries.len() && shape_text(entries[at].0) == Some(key) && (forall|i: int|
            at < i < entries.len() ==> shape_text((#[trigger] entries[i]).0) != Some(key))
            ==> row_field(entries, key) == Some(entries[at].1),
        (forall|i: int| 0 <= i < entries.len() ==> shape_text((#[trigger] entries[i]).0) != Some(key))
            ==> row_field(entries, key) is None,
    decreases entries.len(),
{
    if entries.len() > 0 {
        let front = entries.drop_last();
        law_last_entry_decides(front, key, at);
        let last = entries[entries.len() - 1];
        if 0 <= at < entries.len() && shape_text(entries[at].0) == Some(key) && (forall|i: int|
            at < i < entries.len() ==> shape_text((#[trigger] entries[i]).0) != Some(key)) {
            if at < front.len() {
                assert(shape_text(last.0) != Some(key));
                assert forall|i: int| at < i < front.len() implies shape_text(
                    (#[trigger] front[i]).0,
                ) != Some(key) by {
                    assert(front[i] == entries[i]);
                }
            }
        }
        if forall|i: int|
            0 <= i < entries.len() ==> shape_text((#[trigger] entries[i]).0) != Some(key) {
            assert(shape_text(last.0) != Some(key));
            assert forall|i: int| 0 <= i < front.len() implies shape_text((#[trigger] front[i]).0)
                != Some(key) by {
                assert(front[i] == entries[i]);
            }
        }
    }
}

/// A dictionary of string keys whose `label` and `action` are texts, be it inside a
/// variant or not, is a button with that label and that action. A missing or other label or
/// action, a key that is no string, or anything but a dictionary is no button.
pub proof fn law_a_button_has_a_label_and_an_action(
    row: Vec<(Shape, Field)>,
    label: Field,
    action: Field,
    label_text: String,
    action_text: String,
    item: Shape,
)
    ensures
        keys_are_text(row@) && row_field(row@, "label"@) == Some(label) && row_field(
            row@,
            "action"@,
        ) == Some(action) && (label.shape == Shape::Str(label_text) || label.shape
            == Shape::Nested(Box::new(Shape::Str(label_text)))) && (action.shape == Shape::Str(
            action_text,
        ) || action.shape == Shape::Nested(Box::new(Shape::Str(action_text)))) ==> {
            &&& button_of(Shape::Dict(row)) is Some
            &&& button_of(Shape::Dict(row))->0.label == label_text@
            &&& button_of(Shape::Dict(row))->0.action == action_text@
            &&& row_field(row@, "target"@) is None ==> button_of(Shape::Dict(row))->0.target is None
        },
        row_field(row@, "label"@) is None ==> button_of(Shape::Dict(row)) is None,
        row_field(row@, "action"@) is None ==> button_of(Shape::Dict(row)) is None,
        !keys_are_text(row@) ==> button_of(Shape::Dict(row)) is None,
        !(item is Dict) ==> button_of(item) is None,
{
}

/// The target of a button is what its `target` entry holds: a byte and a text by
/// themselves, anything else by its encoding.
pub proof fn law_a_button_keeps_its_target(
    row: Vec<(Shape, Field)>,
    target: Field,
    byte: u8,
    text: String,
)
    requires
        button_of(Shape::Dict(row)) is Some,
        row_field(row@, "target"@) == Some(target),
    ensures
        target.shape == Shape::Byte(byte) || target.shape == Shape::Nested(
            Box::new(Shape::Byte(byte)),
        ) ==> button_of(Shape::Dict(row))->0.target == Some(VariantView::Byte(byte)),
        target.shape == Shape::Str(text) || target.shape == Shape::Nested(
            Box::new(Shape::Str(text)),
        ) ==> button_of(Shape::Dict(row))->0.target == Some(VariantView::Str(text@)),
        target.shape is Array || target.shape is Dict || target.shape is Structure
            || target.shape is Other ==> button_of(Shape::Dict(row))->0.target
            == match target.encoded {
            Some(bytes) => Some(VariantView::Encoded(bytes@)),
            None => None,
        },
{
}

/// The buttons of a notification are those in the array of its `buttons` entry, and none
/// without one.
pub proof fn law_buttons_come_from_their_entry(
    app_id: Seq<char>,
    gtk_id: Seq<char>,
    map: Map<Seq<char>, Field>,
    cached_icon: Option<Seq<char>>,
    items: Vec<Shape>,
)
    ensures
        ({
            let parsed = parsed_view(app_id, gtk_id, map, cached_icon);
            &&& map.contains_key("buttons"@) && map["buttons"@].shape == Shape::Array(items)
                ==> parsed.actions_flat == flat_buttons(buttons_among(items@))
                && parsed.dispatch.button_actions == button_map(buttons_among(items@))
            &&& !map.contains_key("buttons"@) || !(map["buttons"@].shape is Array)
                ==> parsed.actions_flat.len() == 0 && parsed.dispatch.button_actions
                == Map::<Seq<char>, crate::source::GtkActionView>::empty()
        }),
{
    assert(flat_buttons(seq![]).len() == 0);
    assert(button_map(seq![]) == Map::<Seq<char>, crate::source::GtkActionView>::empty());
}

/// Whatever else is among the buttons of a notification, one with an action that begins
/// with `app.` is offered with its label, and can be dispatched.
pub proof fn law_an_app_button_is_never_lost(
    app_id: Seq<char>,
    gtk_id: Seq<char>,
    map: Map<Seq<char>, Field>,
    cached_icon: Option<Seq<char>>,
    items: Vec<Shape>,
    at: int,
    button: ButtonView,
    name: Seq<char>,
)
    requires
        map.contains_key("buttons"@),
        map["buttons"@].shape == Shape::Array(items),
        0 <= at < items@.len(),
        button_of(items@[at]) == Some(button),
        button.action == "app."@ + name,
    ensures
        ({
            let parsed = parsed_view(app_id, gtk_id, map, cached_icon);
            &&& exists|k: int|
                0 <= k && 2 * k + 1 < parsed.actions_flat.len() && #[trigger] parsed.actions_flat[2
                    * k] == button.action && parsed.actions_flat[2 * k + 1] == button.label
            &&& parsed.dispatch.button_actions.contains_key(button.action)
            &&& parsed.dispatch.button_actions[button.action].name == name
        }),
{
    let parsed = parsed_view(app_id, gtk_id, map, cached_icon);
    let a = items@.take(at);
    let b = items@.skip(at + 1);
    let item = items@[at];
    let buttons = buttons_among(items@);
    assert(items@ =~= a + seq![item] + b);
    law_buttons_are_read_one_by_one(a + seq![item], b, item);
    law_buttons_are_read_one_by_one(a, seq![item], item);
    assert(buttons =~= buttons_among(a) + seq![button] + buttons_among(b));
    let first = buttons_among(a);
    law_buttons_are_offered_in_order(first + seq![button], buttons_among(b));
    law_buttons_are_offered_in_order(first, seq![button]);
    law_every_app_button_is_offered(first, 0);
    law_app_actions_have_the_prefix(button.action, name, button.target);
    reveal_with_fuel(flat_buttons, 2);
    assert(seq![button].drop_last() =~= Seq::<ButtonView>::empty());
    assert(flat_buttons(seq![button]) =~= seq![button.action, button.label]);
    let k = flat_buttons(first).len() as int / 2;
    assert(parsed.actions_flat[2 * k] == button.action);
    law_dispatched_is_offered(buttons, button.action);
    crate::gtk::law_button_actions_come_from_buttons(buttons, button.action);
    assert(button_map(buttons)[button.action].name == name);
}

/// The title and the body are the texts that were sent under these keys. Without a title,
/// or with one that is no text, the title is empty; likewise there is no body.
pub proof fn law_title_and_body_are_what_was_sent(
    app_id: Seq<char>,
    gtk_id: Seq<char>,
    map: Map<Seq<char>, Field>,
    cached_icon: Option<Seq<char>>,
    text: String,
)
    ensures
        ({
            let parsed = parsed_view(app_id, gtk_id, map, cached_icon);
            let plain = Shape::Str(text);
            let nested = Shape::Nested(Box::new(Shape::Str(text)));
            &&& map.contains_key("title"@) && (map["title"@].shape == plain || map["title"@].shape
                == nested) ==> parsed.title == text@
            &&& !map.contains_key("title"@) || shape_text(map["title"@].shape) is None
                ==> parsed.title.len() == 0
            &&& map.contains_key("body"@) && (map["body"@].shape == plain || map["body"@].shape
                == nested) ==> parsed.body == Some(text@)
            &&& !map.contains_key("body"@) || shape_text(map["body"@].shape) is None
                ==> parsed.body is None
            &&& parsed.dispatch.app_id == app_id
            &&& parsed.dispatch.gtk_id == gtk_id
        }),
{
}

/// The text of a value is that of a string, or of a string directly inside a variant, and
/// there is none in anything else.
pub proof fn law_texts_are_strings(shape: Shape, text: String)
    ensures
        shape_text(Shape::Str(text)) == Some(text@),
        shape_text(Shape::Nested(Box::new(Shape::Str(text)))) == Some(text@),
        shape is Byte || shape is Array || shape is Dict || shape is Structure || shape is Other
            ==> shape_text(shape) is None,
        shape matches Shape::Nested(inner) && !(*inner is Str) ==> shape_text(shape) is None,
{
}

/// The hints carry the urgency and the application, and the image file if there is one, and
/// nothing else. The urgency is critical for the priority `urgent`, low for `low`, and
/// normal for anything else and for none.
pub proof fn law_hints_carry_urgency_and_application(
    app_id: Seq<char>,
    gtk_id: Seq<char>,
    map: Map<Seq<char>, Field>,
    cached_icon: Option<Seq<char>>,
    key: Seq<char>,
)
    ensures
        ({
            let hints = parsed_view(app_id, gtk_id, map, cached_icon).hints;
            let priority = if map.contains_key("priority"@) {
                shape_text(map["priority"@].shape)
            } else {
                None
            };
            &&& hints.contains_key("urgency"@)
            &&& priority == Some("urgent"@) ==> hints["urgency"@] == VariantView::Byte(2)
            &&& priority == Some("low"@) ==> hints["urgency"@] == VariantView::Byte(0)
            &&& priority != Some("urgent"@) && priority != Some("low"@) ==> hints["urgency"@]
                == VariantView::Byte(1)
            &&& hints.contains_key("desktop-entry"@)
            &&& hints["desktop-entry"@] == VariantView::Str(app_id)
            &&& hints.contains_key(key) ==> key == "urgency"@ || key == "desktop-entry"@ || key
                == "image-path"@
        }),
{
    lemma_hint_keys_differ();
    reveal_strlit("urgent");
    reveal_strlit("low");
    assert("urgent"@.len() == 6);
    assert("low"@.len() == 3);
}

proof fn lemma_hint_keys_differ()
    ensures
        "urgency"@ != "desktop-entry"@,
        "urgency"@ != "image-path"@,
        "desktop-entry"@ != "image-path"@,
{
    reveal_strlit("urgency");
    reveal_strlit("desktop-entry");
    reveal_strlit("image-path");
    assert("urgency"@.len() == 7);
    assert("desktop-entry"@.len() == 13);
    assert("image-path"@.len() == 10);
}

/// The icon that was sent: a themed icon is shown by the first of its names, a file icon by
/// its path without the `file://` of a URI, a bytes icon by the file that its bytes were
/// cached in. A themed icon is no image file, the others are no icon name; without an icon,
/// or with one of another kind, there is neither.
pub proof fn law_icons_are_shown_by_their_kind(
    app_id: Seq<char>,
    gtk_id: Seq<char>,
    map: Map<Seq<char>, Field>,
    cached_icon: Option<Seq<char>>,
    tag: String,
    payload: Shape,
    fields: Vec<Shape>,
)
    requires
        map.contains_key("icon"@),
        map["icon"@].shape == Shape::Structure(fields),
        fields@ == seq![Shape::Str(tag), Shape::Nested(Box::new(payload))],
    ensures
        ({
            let parsed = parsed_view(app_id, gtk_id, map, cached_icon);
            let image = "image-path"@;
            &&& tag@ == "themed"@ ==> !parsed.hints.contains_key(image)
            &&& tag@ == "themed"@ && (payload matches Shape::Array(names) && names@.len() > 0
                && names@[0] is Str) ==> parsed.app_icon == Some(payload->Array_0@[0]->Str_0@)
            &&& tag@ == "themed"@ && !(payload matches Shape::Array(names) && names@.len() > 0
                && names@[0] is Str) ==> parsed.app_icon is None
            &&& tag@ != "themed"@ ==> parsed.app_icon is None
            &&& tag@ == "file"@ && payload is Str ==> parsed.hints.contains_key(image)
                && parsed.hints[image] == VariantView::Str(without_scheme(payload->Str_0@))
            &&& tag@ == "file"@ && !(payload is Str) ==> !parsed.hints.contains_key(image)
            &&& tag@ == "bytes"@ && payload is Array && cached_icon is Some
                ==> parsed.hints.contains_key(image) && parsed.hints[image] == VariantView::Str(
                cached_icon->0,
            )
            &&& tag@ == "bytes"@ && (!(payload is Array) || cached_icon is None)
                ==> !parsed.hints.contains_key(image)
            &&& tag@ != "themed"@ && tag@ != "file"@ && tag@ != "bytes"@
                ==> !parsed.hints.contains_key(image)
            &&& tag@ == "bytes"@ && payload is Array ==> notification_icon(map)
                == IconView::Bytes(byte_values(payload->Array_0@))
            &&& tag@ != "bytes"@ || !(payload is Array) ==> !(notification_icon(map) is Bytes)
        }),
{
    lemma_hint_keys_differ();
    crate::gtk::lemma_tags_differ();
}

/// Without an icon, or with one that is not a kind and a payload, nothing is shown.
pub proof fn law_no_icon_is_shown_without_one(
    app_id: Seq<char>,
    gtk_id: Seq<char>,
    map: Map<Seq<char>, Field>,
    cached_icon: Option<Seq<char>>,
)
    requires
        map.contains_key("icon"@) ==> !(map["icon"@].shape matches Shape::Structure(fields)
            && fields@.len() == 2 && fields@[0] is Str && fields@[1] is Nested),
    ensures
        parsed_view(app_id, gtk_id, map, cached_icon).app_icon is None,
        !parsed_view(app_id, gtk_id, map, cached_icon).hints.contains_key("image-path"@),
        notification_icon(map) is Absent,
{
    lemma_hint_keys_differ();
}

/// The scheme of a file URI goes, and nothing else of a path does.
pub proof fn law_only_the_scheme_goes(rest: Seq<char>, path: Seq<char>)
    ensures
        without_scheme("file://"@ + rest) == rest,
        without_scheme(path) == path || path == "file://"@ + without_scheme(path),
        (forall|tail: Seq<char>| path != #[trigger] ("file://"@ + tail)) ==> without_scheme(path)
            == path,
{
    let scheme = "file://"@;
    assert((scheme + rest).take(scheme.len() as int) =~= scheme);
    assert((scheme + rest).skip(scheme.len() as int) =~= rest);
    if crate::text::begins_with(path, scheme) {
        assert(path =~= scheme + path.skip(scheme.len() as int));
    }
}

/// The bytes of an image blob are taken one by one, in their order; a value that is no byte
/// gives none.
pub proof fn law_bytes_are_taken_one_by_one(a: Seq<Shape>, b: Seq<Shape>, item: Shape)
    ensures
        byte_values(a + b) == byte_values(a) + byte_values(b),
        item matches Shape::Byte(byte) ==> byte_values(seq![item]) == seq![byte],
        !(item is Byte) ==> byte_values(seq![item]).len() == 0,
    decreases b.len(),
{
    reveal_with_fuel(byte_values, 2);
    assert(seq![item].drop_last() =~= Seq::<Shape>::empty());
    assert(item matches Shape::Byte(byte) ==> byte_values(seq![item]) =~= seq![byte]);
    if b.len() == 0 {
        assert(a + b =~= a);
        assert(byte_values(a) + byte_values(b) =~= byte_values(a));
    } else {
        law_bytes_are_taken_one_by_one(a, b.drop_last(), item);
        assert((a + b).drop_last() =~= a + b.drop_last());
        assert(byte_values(a + b) =~= byte_values(a) + byte_values(b));
    }
}

/// A body click dispatches the `default-action`, if that is a text that begins with `app.`:
/// its name without the prefix, with the `default-action-target` as its parameter. Any
/// other default action, and none, leaves the body click to raise the application.
pub proof fn law_default_action_is_what_was_sent(
    app_id: Seq<char>,
    gtk_id: Seq<char>,
    map: Map<Seq<char>, Field>,
    cached_icon: Option<Seq<char>>,
    name: Seq<char>,
)
    ensures
        ({
            let default = parsed_view(app_id, gtk_id, map, cached_icon).dispatch.default_action;
            let sent = if map.contains_key("default-action"@) {
                shape_text(map["default-action"@].shape)
            } else {
                None
            };
            &&& sent == Some("app."@ + name) ==> default is Some && default->0.name == name
            &&& sent == Some("app."@ + name) && !map.contains_key("default-action-target"@)
                ==> default->0.target is None
            &&& sent == Some("app."@ + name) && map.contains_key("default-action-target"@)
                ==> default->0.target == carried(map["default-action-target"@])
            &&& sent is None ==> default is None
            &&& sent is Some && (forall|tail: Seq<char>| sent->0 != #[trigger] ("app."@ + tail))
                ==> default is None
        }),
{
    law_app_actions_have_the_prefix("app."@ + name, name, None);
    let sent = if map.contains_key("default-action"@) {
        shape_text(map["default-action"@].shape)
    } else {
        None
    };
    if sent is Some {
        law_app_actions_have_the_prefix(sent->0, name, None);
    }
}

/// A value is passed on as it is: a byte and a text by themselves, anything else by its
/// encoding.
pub proof fn law_values_are_passed_on(field: Field, byte: u8, text: String)
    ensures
        field.shape == Shape::Byte(byte) ==> carried(field) == Some(VariantView::Byte(byte)),
        field.shape == Shape::Str(text) ==> carried(field) == Some(VariantView::Str(text@)),
        !(field.shape is Byte) && !(field.shape is Str) ==> carried(field) == match field.encoded {
            Some(bytes) => Some(VariantView::Encoded(bytes@)),
            None => None,
        },
{
}

/// What is shown of a GTK notification is what was sent: the title as the summary, the
/// body, the actions, the hints, and where the actions go. It replaces nothing by number,
/// has no owner, does not expire, and bears the time at which it came.
pub proof fn law_gtk_notification_is_what_was_sent(
    props: NotificationProps,
    id: u32,
    app_name: Seq<char>,
    app_id: Seq<char>,
    gtk_id: Seq<char>,
    map: Map<Seq<char>, Field>,
    cached_icon: Option<Seq<char>>,
    now: int,
    text: String,
)
    requires
        is_made_from(props, id, app_name, parsed_view(app_id, gtk_id, map, cached_icon), now),
    ensures
        props.id == id,
        props.app_name@ == app_name,
        props.replaces_id == 0,
        props.expire_timeout < 0,
        props.owner is None,
        props.timestamp@ == now,
        map.contains_key("title"@) && map["title"@].shape == Shape::Str(text) ==> props.summary@
            == text@,
        !map.contains_key("title"@) ==> props.summary@.len() == 0,
        map.contains_key("body"@) && map["body"@].shape == Shape::Str(text) ==> props.body@
            == text@,
        !map.contains_key("body"@) ==> props.body@.len() == 0,
        props.actions.deep_view() == parsed_view(app_id, gtk_id, map, cached_icon).actions_flat,
        hints_view(props.hints) == parsed_view(app_id, gtk_id, map, cached_icon).hints,
        parsed_view(app_id, gtk_id, map, cached_icon).app_icon matches Some(icon)
            ==> props.app_icon@ == icon,
        parsed_view(app_id, gtk_id, map, cached_icon).app_icon is None ==> props.app_icon@.len()
            == 0,
        props.source@ matches crate::source::SourceView::Gtk(dispatch) && dispatch.app_id == app_id
            && dispatch.gtk_id == gtk_id && dispatch == parsed_view(
            app_id,
            gtk_id,
            map,
            cached_icon,
        ).dispatch,
{
    law_title_and_body_are_what_was_sent(app_id, gtk_id, map, cached_icon, text);
}

/// A target inside a variant that is neither a byte nor a text is passed on by its encoding
/// too.
pub proof fn law_a_nested_target_is_passed_on(
    row: Vec<(Shape, Field)>,
    target: Field,
    inner: Shape,
)
    requires
        button_of(Shape::Dict(row)) is Some,
        row_field(row@, "target"@) == Some(target),
        target.shape == Shape::Nested(Box::new(inner)),
        !(inner is Byte),
        !(inner is Str),
    ensures
        button_of(Shape::Dict(row))->0.target == match target.encoded {
            Some(bytes) => Some(VariantView::Encoded(bytes@)),
            None => None,
        },
{
}

/// What is read of a notification denotes what it holds, and so do an action and what the
/// actions are dispatched to.
pub proof fn law_parsed_notifications_denote_their_fields(
    parsed: ParsedGtkNotification,
    dispatch: GtkDispatch,
    action: GtkAction,
    key: Seq<char>,
)
    ensures
        parsed@.title == parsed.title@,
        parsed@.body == parsed.body.deep_view(),
        parsed@.app_icon == parsed.app_icon.deep_view(),
        parsed@.hints == hints_view(parsed.hints),
        parsed@.actions_flat == parsed.actions_flat.deep_view(),
        parsed@.dispatch == parsed.dispatch@,
        action@.name == action.name@,
        action@.target == action.target.deep_view(),
        dispatch@.app_id == dispatch.app_id@,
        dispatch@.gtk_id == dispatch.gtk_id@,
        dispatch@.default_action == dispatch.default_action.deep_view(),
        dispatch@.button_actions.contains_key(key) == dispatch.button_actions@.contains_key(key),
        dispatch.button_actions@.contains_key(key) ==> dispatch@.button_actions[key]
            == dispatch.button_actions@[key]@,
{
}

} // verus!
