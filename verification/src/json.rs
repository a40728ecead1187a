//! The JSON texts that notifications are persisted in.

use std::collections::BTreeMap;
use vstd::prelude::*;
use zbus::zvariant::serialized::{Context, Data};
use zbus::zvariant::{OwnedValue, Str, Value, LE};

use crate::assoc::{keys_distinct, map_of};
use crate::value::{variants_view, Variant, VariantView};

verus! {

/// What a text or an error message denotes.
pub open spec fn result_view(result: Result<String, String>) -> Result<Seq<char>, Seq<char>> {
    match result {
        Ok(text) => Ok(text@),
        Err(message) => Err(message@),
    }
}

/// What is read from a JSON text of a D-Bus value.
pub enum ReadValue {
    /// A byte.
    Byte(u8),
    /// A string.
    Str(String),
    /// Any other value.
    Other,
}

/// What a [`ReadValue`] denotes.
pub enum ReadView {
    /// A byte.
    Byte(u8),
    /// A string.
    Str(Seq<char>),
    /// Any other value.
    Other,
}

impl View for ReadValue {
    type V = ReadView;

    open spec fn view(&self) -> ReadView {
        match self {
            ReadValue::Byte(byte) => ReadView::Byte(*byte),
            ReadValue::Str(text) => ReadView::Str(text@),
            ReadValue::Other => ReadView::Other,
        }
    }
}

impl DeepView for ReadValue {
    type V = ReadView;

    open spec fn deep_view(&self) -> ReadView {
        self@
    }
}

/// What the entries of a JSON object denote: each key, and the JSON text of its value.
pub open spec fn entries_view(entries: Seq<(String, String)>) -> Seq<(Seq<char>, Seq<char>)> {
    entries.map_values(|entry: (String, String)| (entry.0@, entry.1@))
}

/// What the entries of an object denote, if it could be read.
pub open spec fn optional_entries_view(entries: Option<Vec<(String, String)>>) -> Option<
    Seq<(Seq<char>, Seq<char>)>,
> {
    match entries {
        Some(entries) => Some(entries_view(entries@)),
        None => None,
    }
}

/// The JSON text of a list of texts.
pub uninterp spec fn texts_json(texts: Seq<Seq<char>>) -> Seq<char>;

/// The list of texts that a JSON text stands for, if it is one.
pub uninterp spec fn texts_read(json: Seq<char>) -> Option<Seq<Seq<char>>>;

/// The JSON text of a D-Bus value, if there is one.
pub uninterp spec fn value_json(value: VariantView) -> Option<Seq<char>>;

/// The D-Bus value that a JSON text without escapes stands for, if it is one.
pub uninterp spec fn value_read(json: Seq<char>) -> Option<ReadView>;

/// The JSON text of a dictionary of D-Bus values, or why there is none.
pub uninterp spec fn values_json(values: Map<Seq<char>, VariantView>) -> Result<
    Seq<char>,
    Seq<char>,
>;

/// The entries of a JSON object, in the order of their keys; nothing if the text is not an
/// object.
pub uninterp spec fn object_read(json: Seq<char>) -> Option<Seq<(Seq<char>, Seq<char>)>>;

/// Whether a text is written in JSON as it stands between its quotes: it holds no control
/// character, no quote and no backslash.
pub open spec fn is_plain(text: Seq<char>) -> bool {
    forall|i: int|
        0 <= i < text.len() ==> ' ' <= #[trigger] text[i] && text[i] != '"' && text[i] != '\\'
}

/// Whether a value is a plain text.
pub open spec fn is_plain_text(value: VariantView) -> bool {
    value matches VariantView::Str(text) && is_plain(text)
}

/// Whether a JSON text is without escapes and stands for a text.
pub open spec fn stands_for(json: Seq<char>, value: VariantView) -> bool {
    !json.contains('\\') && value_read(json) == Some(ReadView::Str(value->Str_0))
}

/// Whether there is a JSON text that stands for a value, if the value is a plain text.
pub open spec fn reads_back(value: VariantView, json: Option<Seq<char>>) -> bool {
    is_plain_text(value) ==> json is Some && stands_for(json->0, value)
}

/// The D-Bus value of a JSON text: a byte or a text by itself, any other value by the JSON
/// text. A text with an escape gives none.
pub open spec fn value_restored(json: Seq<char>) -> Option<VariantView> {
    if json.contains('\\') {
        None
    } else {
        match value_read(json) {
            Some(ReadView::Byte(byte)) => Some(VariantView::Byte(byte)),
            Some(ReadView::Str(text)) => Some(VariantView::Str(text)),
            Some(ReadView::Other) => Some(VariantView::Json(json)),
            None => None,
        }
    }
}

/// Whether two values are the same, as far as their JSON texts tell: they are equal, or are
/// written as the same text.
pub open spec fn same_value(a: VariantView, b: VariantView) -> bool {
    a == b || (value_json(a) is Some && value_json(a) == value_json(b))
}

/// Whether a value survives being stored: it has a JSON text, from which the same value is
/// read back.
pub open spec fn value_survives(value: VariantView) -> bool {
    &&& value_json(value) is Some
    &&& value_restored(value_json(value)->0) is Some
    &&& same_value(value_restored(value_json(value)->0)->0, value)
}

/// Whether a JSON text may hold a dictionary whose keys are signatures: it holds the
/// beginning of such a dictionary's type.
pub open spec fn may_hold_signature_keys(json: Seq<char>) -> bool {
    exists|i: int| 0 <= i < json.len() - 1 && #[trigger] json[i] == '{' && json[i + 1] == 'g'
}

/// Whether a value is kept inside an object of values: it survives being stored, and holds
/// no dictionary whose keys are signatures, which have no order of their own.
pub open spec fn value_is_kept(value: VariantView) -> bool {
    value_survives(value) && !may_hold_signature_keys(value_json(value)->0)
}

/// Whether the entries of an object are those of a dictionary: each key once, for each
/// plain text a JSON text that stands for it, and for each value that is kept its own JSON
/// text.
pub open spec fn keeps_entries(
    values: Map<Seq<char>, VariantView>,
    entries: Seq<(Seq<char>, Seq<char>)>,
) -> bool {
    &&& forall|i: int, j: int|
        0 <= i < j < entries.len() ==> (#[trigger] entries[i]).0 != (#[trigger] entries[j]).0
    &&& forall|i: int|
        0 <= i < entries.len() ==> {
            let (key, json) = #[trigger] entries[i];
            &&& values.contains_key(key)
            &&& is_plain_text(values[key]) ==> stands_for(json, values[key])
            &&& value_is_kept(values[key]) ==> value_json(values[key]) == Some(json)
        }
    &&& forall|key: Seq<char>| #[trigger]
        values.contains_key(key) ==> exists|i: int|
            0 <= i < entries.len() && (#[trigger] entries[i]).0 == key
}

/// Whether every value is a byte or a text.
pub open spec fn all_basic(values: Map<Seq<char>, VariantView>) -> bool {
    forall|key: Seq<char>| #[trigger]
        values.contains_key(key) ==> values[key] is Byte || values[key] is Str
}

/// Whether no value is carried by a JSON text.
pub open spec fn none_read(values: Map<Seq<char>, VariantView>) -> bool {
    forall|key: Seq<char>| #[trigger] values.contains_key(key) ==> !(values[key] is Json)
}

/// Whether a dictionary is written where that is owed, and its entries are read back from
/// what is written.
pub open spec fn object_reads_back(
    values: Map<Seq<char>, VariantView>,
    json: Result<Seq<char>, Seq<char>>,
) -> bool {
    &&& all_basic(values) ==> json is Ok
    &&& none_read(values) && json is Ok ==> object_read(json->Ok_0) is Some
    &&& json is Ok && object_read(json->Ok_0) is Some ==> keeps_entries(
        values,
        object_read(json->Ok_0)->0,
    )
}

/// Calls `serde_json::to_string` on a `Vec<String>`. It does not fail, and
/// `serde_json::from_str` reads the list back from what it writes. What the text looks like
/// is left to `serde_json`.
#[verifier::external_body]
pub(crate) fn texts_to_json(texts: &Vec<String>) -> (json: Result<String, String>)
    ensures
        json is Ok,
        json matches Ok(text) ==> text@ == texts_json(texts.deep_view()),
        json matches Ok(text) ==> texts_read(text@) == Some(texts.deep_view()),
{
    serde_json::to_string(texts).map_err(|err| err.to_string())
}

/// Calls `serde_json::from_str` for a `Vec<String>`. Which texts are such lists is left to
/// `serde_json`.
#[verifier::external_body]
pub(crate) fn texts_from_json(json: &str) -> (texts: Option<Vec<String>>)
    ensures
        texts.deep_view() == texts_read(json@),
{
    serde_json::from_str(json).ok()
}

/// Calls `serde_json::to_string` on a `zvariant::OwnedValue`, which is decoded by
/// `Data::deserialize` from a wire encoding and by `serde_json::from_str` from a JSON text.
/// A plain text gives a JSON text that holds no escape and from which
/// `serde_json::from_str` reads the same text back. What the JSON text looks like, and what
/// becomes of other values, is left to `serde_json` and `zvariant`.
#[verifier::external_body]
pub(crate) fn value_to_json(value: &Variant) -> (json: Option<String>)
    ensures
        json.deep_view() == value_json(value@),
        reads_back(value@, json.deep_view()),
{
    let owned = match value {
        Variant::Byte(byte) => OwnedValue::from(*byte),
        Variant::Str(text) => OwnedValue::from(Str::from(text.as_str())),
        Variant::Encoded(bytes) => {
            let data = Data::new(bytes.as_slice(), Context::new_dbus(LE, 0));
            data.deserialize::<OwnedValue>().ok()?.0
        },
        Variant::Json(json) => serde_json::from_str(json.text.as_str()).ok()?,
    };
    serde_json::to_string(&owned).ok()
}

/// Calls `serde_json::from_str` for a `zvariant::OwnedValue`, on a text without escapes
/// (it does not return on a string value with one), and tells a byte and a string from any
/// other value. Which texts are such values is left to `serde_json` and `zvariant`.
#[verifier::external_body]
pub(crate) fn value_from_json(json: &str) -> (value: Option<ReadValue>)
    requires
        !json@.contains('\\'),
    ensures
        value.deep_view() == value_read(json@),
{
    let owned: OwnedValue = serde_json::from_str(json).ok()?;
    match &*owned {
        Value::U8(byte) => Some(ReadValue::Byte(*byte)),
        Value::Str(text) => Some(ReadValue::Str(text.to_string())),
        _ => Some(ReadValue::Other),
    }
}

/// Calls `serde_json::to_string` on a dictionary of `zvariant::OwnedValue`s, which are
/// decoded as in [`value_to_json`], all in the order of the keys. Bytes and texts are
/// always written. What is written is read back by `serde_json::from_str` as an object,
/// unless a value was itself read from a JSON text, which may be nested too deeply to be
/// read inside another. The object has the same keys; its entry for a plain text stands for
/// that text. Its entry for a value whose own JSON text is read as the same value is that
/// JSON text, unless the value may hold a dictionary whose keys are signatures: those
/// `zvariant` puts in an order that is not the order of their texts, and in which different
/// keys may count as equal. What the text looks like, and for which other values there is
/// none, is left to `serde_json` and `zvariant`.
#[verifier::external_body]
pub(crate) fn values_to_json(values: &Vec<(String, Variant)>) -> (json: Result<String, String>)
    requires
        keys_distinct(values@),
    ensures
        result_view(json) == values_json(variants_view(map_of(values@))),
        object_reads_back(variants_view(map_of(values@)), result_view(json)),
{
    let mut map = BTreeMap::new();
    for (key, value) in BTreeMap::from_iter(values.iter().map(|(key, value)| (key, value))) {
        let owned: OwnedValue = match value {
            Variant::Byte(byte) => (*byte).into(),
            Variant::Str(text) => Str::from(text.as_str()).into(),
            Variant::Encoded(bytes) => Data::new(bytes.as_slice(), Context::new_dbus(LE, 0))
                .deserialize().map_err(|err| err.to_string())?.0,
            Variant::Json(json) => serde_json::from_str(&json.text).map_err(|err| err.to_string())?,
        };
        map.insert(key, owned);
    }
    serde_json::to_string(&map).map_err(|err| err.to_string())
}

/// Calls `serde_json::from_str` for an object of `serde_json::Value`s, and writes each of
/// them as its JSON text. Which texts are objects is left to `serde_json`.
#[verifier::external_body]
pub(crate) fn object_from_json(json: &str) -> (entries: Option<Vec<(String, String)>>)
    ensures
        optional_entries_view(entries) == object_read(json@),
{
    let map: BTreeMap<String, serde_json::Value> = serde_json::from_str(json).ok()?;
    Some(map.into_iter().map(|(key, value)| (key, value.to_string())).collect())
}

} // verus!
