use std::collections::HashMap;

use wayle_services::assoc::AssocMap;
use wayle_services::hints::{IncomingHints, RawImageData};
use wayle_services::value::Variant;
use zbus::zvariant::{serialized::Context, to_bytes, Value, LE};

/// The pixels of an image hint.
fn pixels_of(value: &Value) -> Vec<u8> {
    let Value::Structure(structure) = value else {
        panic!("image data should be a structure");
    };
    let Value::Array(pixels) = &structure.fields()[6] else {
        panic!("pixels should be an array");
    };
    pixels
        .iter()
        .map(|pixel| match pixel {
            Value::U8(byte) => *byte,
            _ => panic!("a pixel should be a byte"),
        })
        .collect()
}

fn number(value: &Value) -> i32 {
    match value {
        Value::I32(number) => *number,
        _ => panic!("a number should be an integer"),
    }
}

fn raw_image<'a>(value: &Value, pixels: &'a [u8]) -> RawImageData<'a> {
    let Value::Structure(structure) = value else {
        panic!("image data should be a structure");
    };
    let fields = structure.fields();
    (
        number(&fields[0]),
        number(&fields[1]),
        number(&fields[2]),
        matches!(fields[3], Value::Bool(true)),
        number(&fields[4]),
        number(&fields[5]),
        pixels,
    )
}

#[test]
fn incoming_hints_extracts_image_data_without_storing_raw_hint() {
    let pixels = [0u8, 1, 2, 3];
    let mut raw = HashMap::new();
    raw.insert("category", Value::new("im.received"));
    raw.insert(
        "image-data",
        Value::new((1i32, 1i32, 4i32, true, 8i32, 4i32, &pixels[..])),
    );
    let encoded = to_bytes(Context::new_dbus(LE, 0), &raw).expect("hints should encode");

    let (decoded, _): (HashMap<String, Value>, _) =
        encoded.deserialize().expect("hints should parse");
    let data = pixels_of(&decoded["image-data"]);
    let mut others = AssocMap::new();
    if let Value::Str(category) = &decoded["category"] {
        others.insert("category".to_string(), Variant::Str(category.to_string()));
    }
    let hints = IncomingHints {
        image_data: Some(raw_image(&decoded["image-data"], &data)),
        image_data_legacy: None,
        icon_data: None,
        hints: others,
    };

    let image = hints.image_data().expect("image-data should parse");

    assert_eq!(image.width, 1);
    assert_eq!(image.height, 1);
    assert_eq!(image.data, pixels);
    let owned = hints.into_owned();
    assert!(owned.get(&"category".to_string()).is_some());
    assert!(owned.get(&"image-data".to_string()).is_none());
}

#[test]
fn incoming_hints_prefers_spec_image_data_key() {
    let low_priority = [9u8, 9, 9, 9];
    let high_priority = [1u8, 2, 3, 4];
    let mut raw = HashMap::new();
    raw.insert(
        "icon_data",
        Value::new((1i32, 1i32, 4i32, true, 8i32, 4i32, &low_priority[..])),
    );
    raw.insert(
        "image-data",
        Value::new((1i32, 1i32, 4i32, true, 8i32, 4i32, &high_priority[..])),
    );
    let encoded = to_bytes(Context::new_dbus(LE, 0), &raw).expect("hints should encode");

    let (decoded, _): (HashMap<String, Value>, _) =
        encoded.deserialize().expect("hints should parse");
    let icon = pixels_of(&decoded["icon_data"]);
    let image = pixels_of(&decoded["image-data"]);
    let hints = IncomingHints {
        image_data: Some(raw_image(&decoded["image-data"], &image)),
        image_data_legacy: None,
        icon_data: Some(raw_image(&decoded["icon_data"], &icon)),
        hints: AssocMap::new(),
    };

    assert_eq!(
        hints.image_data().expect("image-data should parse").data,
        high_priority
    );
}

#[test]
fn image_data_falls_back_in_order() {
    let legacy = [2u8];
    let icon = [3u8];
    let both = IncomingHints {
        image_data: None,
        image_data_legacy: Some((5, 6, 7, false, 8, 3, &legacy[..])),
        icon_data: Some((1, 1, 1, false, 8, 3, &icon[..])),
        hints: AssocMap::new(),
    };
    let image = both.image_data().expect("the legacy key counts");
    assert_eq!(image.data, legacy);
    assert_eq!(
        (image.width, image.height, image.rowstride, image.bits_per_sample, image.channels),
        (5, 6, 7, 8, 3)
    );

    let only_icon = IncomingHints {
        image_data: None,
        image_data_legacy: None,
        icon_data: Some((1, 1, 1, false, 8, 3, &icon[..])),
        hints: AssocMap::new(),
    };
    assert_eq!(only_icon.image_data().expect("the icon counts").data, icon);

    let nothing = IncomingHints {
        image_data: None,
        image_data_legacy: None,
        icon_data: None,
        hints: AssocMap::new(),
    };
    assert!(nothing.image_data().is_none());
}

#[test]
fn a_map_holds_each_key_once() {
    let mut map: AssocMap<String, u32> = AssocMap::new();
    map.insert("a".to_string(), 1);
    map.insert("b".to_string(), 2);
    map.insert("a".to_string(), 3);

    assert_eq!(map.entries().len(), 2);
    assert_eq!(map.get(&"a".to_string()), Some(&3));
    assert_eq!(map.remove(&"a".to_string()), Some(3));
    assert_eq!(map.remove(&"a".to_string()), None);
    assert_eq!(map.get(&"b".to_string()), Some(&2));
}
