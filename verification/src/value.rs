//! D-Bus values as plain data.
//!
//! A value that is only passed on (an action target, a hint) is a [`Variant`]. A value
//! whose structure is read is a [`Shape`]; a [`Field`] is both, as it arrives in a
//! dictionary.

use vstd::prelude::*;

use crate::assoc::AssocMap;
use crate::assoc::{keys_distinct, lemma_entry_of_key, map_of};
use crate::text::has_backslash;

verus! {

/// A D-Bus variant that is passed on as it is.
#[derive(Debug)]
pub enum Variant {
    /// A byte.
    Byte(u8),
    /// A string.
    Str(String),
    /// Any other value, in the little-endian D-Bus wire encoding of a variant.
    Encoded(Vec<u8>),
    /// Any other value, by the JSON text that it was read from.
    Json(JsonText),
}

/// A JSON text without escapes.
#[derive(Debug)]
pub struct JsonText {
    pub(crate) text: String,
}

impl View for JsonText {
    type V = Seq<char>;

    closed spec fn view(&self) -> Seq<char> {
        self.text@
    }
}

impl JsonText {
    #[verifier::type_invariant]
    spec fn has_no_escape(self) -> bool {
        !self.text@.contains('\\')
    }

    /// A JSON text, if it holds no backslash.
    pub fn new(text: &str) -> (json: Option<JsonText>)
        ensures
            json is Some <==> !text@.contains('\\'),
            json matches Some(j) ==> j@ == text@,
    {
        if has_backslash(text) {
            None
        } else {
            Some(JsonText { text: text.to_owned() })
        }
    }

    /// The text.
    pub fn as_str(&self) -> (text: &str)
        ensures
            text@ == self@,
            !text@.contains('\\'),
    {
        proof {
            use_type_invariant(self);
        }
        self.text.as_str()
    }
}

impl Clone for JsonText {
    fn clone(&self) -> (copy: Self)
        ensures
            copy@ == self@,
    {
        proof {
            use_type_invariant(self);
        }
        JsonText { text: self.text.clone() }
    }
}

/// What a [`Variant`] denotes.
pub enum VariantView {
    /// A byte.
    Byte(u8),
    /// A string.
    Str(Seq<char>),
    /// Any other value, by its wire encoding.
    Encoded(Seq<u8>),
    /// Any other value, by its JSON text.
    Json(Seq<char>),
}

impl View for Variant {
    type V = VariantView;

    open spec fn view(&self) -> VariantView {
        match self {
            Variant::Byte(byte) => VariantView::Byte(*byte),
            Variant::Str(text) => VariantView::Str(text@),
            Variant::Encoded(bytes) => VariantView::Encoded(bytes@),
            Variant::Json(json) => VariantView::Json(json@),
        }
    }
}

impl DeepView for Variant {
    type V = VariantView;

    open spec fn deep_view(&self) -> VariantView {
        self@
    }
}

/// A copy of a run of bytes.
pub(crate) fn copy_bytes(bytes: &[u8]) -> (copy: Vec<u8>)
    ensures
        copy@ == bytes@,
{
    let mut copy: Vec<u8> = Vec::new();
    let mut i: usize = 0;
    while i < bytes.len()
        invariant
            i <= bytes@.len(),
            copy@ == bytes@.take(i as int),
        decreases bytes@.len() - i,
    {
        copy.push(bytes[i]);
        i += 1;
        assert(copy@ =~= bytes@.take(i as int));
    }
    assert(copy@ =~= bytes@);
    copy
}

impl Clone for Variant {
    fn clone(&self) -> (copy: Self)
        ensures
            copy@ == self@,
    {
        match self {
            Variant::Byte(byte) => Variant::Byte(*byte),
            Variant::Str(text) => Variant::Str(text.clone()),
            Variant::Encoded(bytes) => Variant::Encoded(copy_bytes(bytes.as_slice())),
            Variant::Json(json) => Variant::Json(json.clone()),
        }
    }
}

/// A copy of an optional variant.
pub(crate) fn copy_optional_variant(value: &Option<Variant>) -> (copy: Option<Variant>)
    ensures
        copy.deep_view() == value.deep_view(),
{
    match value {
        Some(value) => Some(value.clone()),
        None => None,
    }
}

/// The structure of a D-Bus value, as far as it is read.
pub enum Shape {
    /// A byte.
    Byte(u8),
    /// A string.
    Str(String),
    /// An array.
    Array(Vec<Shape>),
    /// A dictionary: its keys and values.
    Dict(Vec<(Shape, Field)>),
    /// A structure: its fields.
    Structure(Vec<Shape>),
    /// A variant inside the value.
    Nested(Box<Shape>),
    /// Anything else.
    Other,
}

/// A value of a dictionary: its structure, and its wire encoding.
pub struct Field {
    /// What the value looks like.
    pub shape: Shape,
    /// The value in the little-endian D-Bus wire encoding of a variant; in a
    /// [`Shape::Dict`], a value that is itself a variant is encoded by what is inside it.
    /// Absent when the value cannot be duplicated.
    pub encoded: Option<Vec<u8>>,
}

/// A dictionary with string keys.
pub type Vardict = AssocMap<String, Field>;

/// The text of a value: of a string, or of a string directly inside a variant.
pub open spec fn shape_text(shape: Shape) -> Option<Seq<char>> {
    match shape {
        Shape::Str(text) => Some(text@),
        Shape::Nested(inner) => match *inner {
            Shape::Str(text) => Some(text@),
            _ => None,
        },
        _ => None,
    }
}

/// The text of a value: of a string, or of a string directly inside a variant.
pub fn text_of(shape: &Shape) -> (text: Option<String>)
    ensures
        text.deep_view() == shape_text(*shape),
{
    match shape {
        Shape::Str(text) => Some(text.clone()),
        Shape::Nested(inner) => match &**inner {
            Shape::Str(text) => Some(text.clone()),
            _ => None,
        },
        _ => None,
    }
}

/// The value of a field, to be passed on: a byte or a string by itself, anything else by
/// its encoding.
pub open spec fn carried_of(shape: Shape, encoded: Option<Vec<u8>>) -> Option<VariantView> {
    match shape {
        Shape::Byte(byte) => Some(VariantView::Byte(byte)),
        Shape::Str(text) => Some(VariantView::Str(text@)),
        _ => match encoded {
            Some(bytes) => Some(VariantView::Encoded(bytes@)),
            None => None,
        },
    }
}

/// The value of a field, to be passed on.
pub open spec fn carried(field: Field) -> Option<VariantView> {
    carried_of(field.shape, field.encoded)
}

/// The text of a dictionary field, when the field is there and is a string.
pub open spec fn field_text(map: Map<Seq<char>, Field>, key: Seq<char>) -> Option<Seq<char>> {
    if map.contains_key(key) {
        shape_text(map[key].shape)
    } else {
        None
    }
}

/// The value of a dictionary field to be passed on, when the field is there.
pub open spec fn field_value(map: Map<Seq<char>, Field>, key: Seq<char>) -> Option<VariantView> {
    if map.contains_key(key) {
        carried(map[key])
    } else {
        None
    }
}

/// The text of an optional field.
pub fn owned_string(value: Option<&Field>) -> (text: Option<String>)
    ensures
        text.deep_view() == (match value {
            Some(field) => shape_text(field.shape),
            None => None,
        }),
{
    match value {
        Some(field) => text_of(&field.shape),
        None => None,
    }
}

/// Duplicates a value by its shape and its encoding.
pub(crate) fn carry(shape: &Shape, encoded: &Option<Vec<u8>>) -> (copy: Option<Variant>)
    ensures
        copy.deep_view() == carried_of(*shape, *encoded),
{
    match shape {
        Shape::Byte(byte) => Some(Variant::Byte(*byte)),
        Shape::Str(text) => Some(Variant::Str(text.clone())),
        _ => match encoded {
            Some(bytes) => Some(Variant::Encoded(copy_bytes(bytes.as_slice()))),
            None => None,
        },
    }
}

/// Duplicates the value of a field, to be passed on; nothing when it cannot be duplicated.
pub fn try_clone_owned(value: &Field) -> (copy: Option<Variant>)
    ensures
        copy.deep_view() == carried(*value),
{
    carry(&value.shape, &value.encoded)
}

/// Notification hints.
pub type NotificationHints = AssocMap<String, Variant>;

/// What a map of variants denotes.
pub open spec fn variants_view(map: Map<Seq<char>, Variant>) -> Map<Seq<char>, VariantView> {
    map.map_values(|value: Variant| value@)
}

/// What a set of hints denotes.
pub open spec fn hints_view(hints: NotificationHints) -> Map<Seq<char>, VariantView> {
    variants_view(hints@)
}

/// A copy of a set of hints.
pub(crate) fn copy_hints(hints: &NotificationHints) -> (copy: NotificationHints)
    ensures
        hints_view(copy) == hints_view(*hints),
{
    let entries = hints.entries();
    let mut copy: NotificationHints = AssocMap::new();
    let mut i: usize = 0;
    assert(hints_view(copy) =~= variants_view(map_of(entries@.take(0))));
    while i < entries.len()
        invariant
            i <= entries@.len(),
            keys_distinct(entries@),
            hints_view(copy) == variants_view(map_of(entries@.take(i as int))),
        decreases entries@.len() - i,
    {
        let ghost before = copy@;
        let value = entries[i].1.clone();
        let ghost copied = value;
        copy.insert(entries[i].0.clone(), value);
        proof {
            lemma_take_entry(entries@, i as int);
            lemma_variants_insert(before, entries@[i as int].0@, copied);
            lemma_variants_insert(
                map_of(entries@.take(i as int)),
                entries@[i as int].0@,
                entries@[i as int].1,
            );
        }
        i += 1;
    }
    assert(entries@.take(entries@.len() as int) =~= entries@);
    copy
}

/// Sets a hint.
pub(crate) fn insert_hint(hints: &mut NotificationHints, key: &str, value: Variant)
    ensures
        hints_view(*final(hints)) == hints_view(*old(hints)).insert(key@, value@),
{
    proof {
        lemma_variants_insert(hints@, key@, value);
    }
    hints.insert(key.to_owned(), value);
}

/// Inserting a variant inserts what it denotes.
pub proof fn lemma_variants_insert(map: Map<Seq<char>, Variant>, key: Seq<char>, value: Variant)
    ensures
        variants_view(map.insert(key, value)) == variants_view(map).insert(key, value@),
{
    assert(variants_view(map.insert(key, value)) =~= variants_view(map).insert(key, value@));
}

/// Taking one more entry inserts it into the map.
pub proof fn lemma_take_entry<V>(entries: Seq<(String, V)>, i: int)
    requires
        keys_distinct(entries),
        0 <= i < entries.len(),
    ensures
        map_of(entries.take(i + 1)) == map_of(entries.take(i)).insert(
            entries[i].0@,
            entries[i].1,
        ),
        !map_of(entries.take(i)).contains_key(entries[i].0@),
{
    let less = entries.take(i);
    let more = entries.take(i + 1);
    assert forall|k: Seq<char>| #[trigger]
        map_of(more).contains_key(k) implies map_of(less).insert(
        entries[i].0@,
        entries[i].1,
    ).contains_key(k) && map_of(more)[k] == map_of(less).insert(entries[i].0@, entries[i].1)[k] by {
        let j = choose|j: int| 0 <= j < more.len() && (#[trigger] more[j]).0@ == k;
        lemma_entry_of_key(more, j);
        if j < i {
            lemma_entry_of_key(less, j);
            assert(less[j].0@ == k);
            assert(entries[j].0@ != entries[i].0@);
        }
    }
    assert forall|k: Seq<char>| #[trigger]
        map_of(less).insert(entries[i].0@, entries[i].1).contains_key(k) implies map_of(
        more,
    ).contains_key(k) by {
        if k != entries[i].0@ {
            let j = choose|j: int| 0 <= j < less.len() && (#[trigger] less[j]).0@ == k;
            assert(more[j].0@ == k);
        } else {
            assert(more[i].0@ == k);
        }
    }
    if map_of(less).contains_key(entries[i].0@) {
        let j = choose|j: int| 0 <= j < less.len() && (#[trigger] less[j]).0@ == entries[i].0@;
        assert(entries[j].0@ == entries[i].0@);
    }
    assert(map_of(more) =~= map_of(less).insert(entries[i].0@, entries[i].1));
}

} // verus!
