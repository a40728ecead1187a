use std::collections::hash_map::DefaultHasher;
use std::hash::{Hash, Hasher};
use std::path::PathBuf;

use wayle_services::hints::BorrowedImageData;
use wayle_services::image_cache::{
    borrowed_image_path, cache_borrowed_image, cache_dir, cache_encoded_image,
    cache_image_of_any_size, check_sized, check_stride, content_hash, encoded_image_path,
    path_to_string, png_color_type, strip_rowstride_padding, written_path, CachePath, CacheStep,
    ColorType,
};

fn image(width: i32, height: i32, rowstride: i32, channels: i32, data: &[u8]) -> BorrowedImageData<'_> {
    BorrowedImageData {
        width,
        height,
        rowstride,
        bits_per_sample: 8,
        channels,
        data,
    }
}

#[test]
fn only_rgb_and_rgba_at_eight_bits_are_cached() {
    assert_eq!(png_color_type(8, 3), Some(ColorType::Rgb));
    assert_eq!(png_color_type(8, 4), Some(ColorType::Rgba));
    assert_eq!(png_color_type(8, 1), None);
    assert_eq!(png_color_type(16, 3), None);
}

#[test]
fn padding_is_stripped_row_by_row() {
    let data = [1u8, 2, 3, 0, 4, 5, 6, 0];
    assert_eq!(strip_rowstride_padding(1, 3, 4, &data).as_ref(), [1u8, 2, 3, 4, 5, 6]);
    assert_eq!(strip_rowstride_padding(1, 3, 3, &data).as_ref(), data);
    assert_eq!(strip_rowstride_padding(1, 3, 4, &data[..6]).as_ref(), [1u8, 2, 3, 4, 5]);
    assert_eq!(strip_rowstride_padding(1, 3, 2, &data[..5]).as_ref(), [1u8, 2, 3, 0, 4]);
    assert!(strip_rowstride_padding(1, 3, 4, &[]).is_empty());
}

#[test]
fn a_negative_stride_takes_everything_as_one_row() {
    let data = [1u8, 2, 3, 4, 5];
    assert_eq!(strip_rowstride_padding(1, 3, -1, &data).as_ref(), [1u8, 2, 3]);
    assert_eq!(strip_rowstride_padding(-1, 3, 2, &data).as_ref(), data);
}

#[test]
fn the_hash_is_that_of_the_bytes() {
    for data in [&[][..], &[0u8][..], &[1, 2, 3, 4, 5, 6, 7, 8, 9][..]] {
        let mut hasher = DefaultHasher::new();
        data.hash(&mut hasher);
        assert_eq!(content_hash(data), hasher.finish());
    }
    assert_ne!(content_hash(&[1]), content_hash(&[2]));
}

#[test]
fn the_directory_follows_the_environment() {
    let xdg = Some("/cache".to_string());
    let home = Some("/home/u".to_string());
    assert_eq!(cache_dir(xdg, home.clone()), "/cache/wayle/notifications");
    assert_eq!(cache_dir(None, home), "/home/u/.cache/wayle/notifications");
    assert_eq!(cache_dir(None, None), "/tmp/wayle/notifications");
    for base in ["/cache", "/cache/", "", "relative"] {
        let joined = PathBuf::from(base).join("wayle/notifications");
        assert_eq!(cache_dir(Some(base.to_string()), None), joined.to_string_lossy());
    }
}

#[test]
fn paths_are_joined_as_std_does() {
    for (dir, file) in [("/a", "b.png"), ("/a/", "b.png"), ("", "b.png"), ("/a", "/b.png")] {
        let path = CachePath { dir: dir.to_string(), file: file.to_string() };
        assert_eq!(path_to_string(&path), PathBuf::from(dir).join(file).to_string_lossy());
    }
}

#[test]
fn encoded_images_are_written_as_they_are() {
    let data = [9u8, 8, 7];
    let path = format!("/c/{}.img", content_hash(&data));
    assert_eq!(encoded_image_path(&data, "/c"), Some(path.clone()));

    let CacheStep::Write { dir, path: target, contents } = cache_encoded_image(&data, "/c", false)
    else {
        panic!("the file should be written");
    };
    assert_eq!(dir, "/c");
    assert_eq!(target, path);
    assert_eq!(contents, data);

    assert!(
        matches!(cache_encoded_image(&data, "/c", true), CacheStep::Finished(Some(p)) if p == path)
    );
    assert!(matches!(cache_encoded_image(&[], "/c", false), CacheStep::Finished(None)));
    assert_eq!(encoded_image_path(&[], "/c"), None);
}

#[test]
fn raw_pixels_become_a_png_file() {
    let data = [1u8, 2, 3, 4, 5, 6, 0, 0, 7, 8, 9, 10, 11, 12, 0, 0];
    let picture = image(2, 2, 8, 3, &data);
    assert!(check_sized(&picture));

    let CacheStep::Write { dir, path, contents } = cache_borrowed_image(picture, "/c", false)
    else {
        panic!("the file should be written");
    };

    assert_eq!(dir, "/c");
    assert_eq!(path, format!("/c/{}.png", content_hash(&data)));
    assert_eq!(borrowed_image_path(&picture, "/c"), Some(path));
    let decoder = png::Decoder::new(std::io::Cursor::new(contents));
    let mut reader = decoder.read_info().expect("it is a PNG file");
    let mut pixels = vec![0; reader.output_buffer_size().expect("it has a size")];
    let info = reader.next_frame(&mut pixels).expect("it has pixels");
    assert_eq!((info.width, info.height), (2, 2));
    assert_eq!(info.color_type, png::ColorType::Rgb);
    assert_eq!(info.bit_depth, png::BitDepth::Eight);
    assert_eq!(pixels, vec![1u8, 2, 3, 4, 5, 6, 7, 8, 9, 10, 11, 12]);
}

#[test]
fn pixels_with_alpha_keep_it() {
    let data = [1u8, 2, 3, 4];

    let CacheStep::Write { contents, .. } = cache_borrowed_image(image(1, 1, 4, 4, &data), "/c", false)
    else {
        panic!("the file should be written");
    };

    let mut reader = png::Decoder::new(std::io::Cursor::new(contents)).read_info().expect("it is a PNG file");
    let mut pixels = vec![0; 4];
    let info = reader.next_frame(&mut pixels).expect("it has pixels");
    assert_eq!(info.color_type, png::ColorType::Rgba);
    assert_eq!(pixels, data);
}

#[test]
fn a_cached_image_is_not_encoded_again() {
    let picture = image(9, 9, 1, 3, &[1]);
    let path = borrowed_image_path(&picture, "/c");
    assert!(path.is_some());
    assert!(matches!(cache_borrowed_image(picture, "/c", true), CacheStep::Finished(p) if p == path));
}

#[test]
fn pixels_that_cannot_be_encoded_leave_only_the_directory() {
    for picture in [
        image(2, 1, 6, 3, &[1, 2, 3]),
        image(0, 1, 0, 3, &[]),
        image(1, 0, 3, 3, &[]),
        image(1, 1, 3, 3, &[1, 2, 3, 4]),
    ] {
        assert!(check_sized(&picture));
        assert!(
            matches!(cache_borrowed_image(picture, "/c", false), CacheStep::OnlyDirectory(d) if d == "/c")
        );
    }
}

#[test]
fn pixels_of_another_kind_are_not_cached() {
    let mut picture = image(1, 1, 3, 3, &[1, 2, 3]);
    picture.bits_per_sample = 16;
    assert!(matches!(cache_borrowed_image(picture, "/c", false), CacheStep::Finished(None)));
    assert!(borrowed_image_path(&picture, "/c").is_none());
    let gray = image(1, 1, 1, 1, &[1]);
    assert!(matches!(cache_borrowed_image(gray, "/c", false), CacheStep::Finished(None)));
}

#[test]
fn sizes_that_are_no_number_are_recognized() {
    assert!(!check_sized(&image(i32::MAX, 1, 4, 3, &[])));
    assert!(!check_sized(&image(1, 1, 0, 3, &[])));
    assert!(check_sized(&image(1, 1, 3, 3, &[1, 2, 3])));
}

#[test]
fn an_image_that_is_too_large_leaves_only_the_directory() {
    for picture in [image(i32::MAX, 1, 4, 3, &[]), image(-1, -1, 4, 4, &[1, 2, 3, 4])] {
        assert!(check_stride(&picture));
        assert!(!check_sized(&picture));
        assert!(matches!(
            cache_image_of_any_size(picture, "/c", false),
            CacheStep::OnlyDirectory(d) if d == "/c"
        ));
        let path = borrowed_image_path(&picture, "/c");
        assert!(matches!(
            cache_image_of_any_size(picture, "/c", true),
            CacheStep::Finished(p) if p == path
        ));
    }
}

#[test]
fn an_image_of_any_size_is_cached_like_another() {
    let data = [1u8, 2, 3];
    let picture = image(1, 1, 3, 3, &data);

    let CacheStep::Write { contents, .. } = cache_image_of_any_size(picture, "/c", false) else {
        panic!("the file should be written");
    };

    let CacheStep::Write { contents: expected, .. } = cache_borrowed_image(picture, "/c", false)
    else {
        panic!("the file should be written");
    };
    assert_eq!(contents, expected);
    let gray = image(1, 1, 0, 1, &data);
    assert!(matches!(cache_image_of_any_size(gray, "/c", false), CacheStep::Finished(None)));
}

#[test]
fn rows_without_a_stride_are_recognized() {
    assert!(!check_stride(&image(1, 1, 0, 3, &[])));
    assert!(check_stride(&image(0, 1, 0, 3, &[])));
    assert!(check_stride(&image(1, 1, -1, 3, &[])));
}

#[test]
fn a_failed_write_gives_no_path() {
    assert_eq!(written_path("/a".to_string(), true), Some("/a".to_string()));
    assert_eq!(written_path("/a".to_string(), false), None);
}
