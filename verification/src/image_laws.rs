//! What is cached of an image, and where.

use vstd::prelude::*;

use crate::hints::BorrowedImageData;
use crate::image_cache::{
    as_size, as_unsigned, cache_dir_of, cache_name, color_type_of, encoded_path, file_path,
    has_stride, hash_of, image_path_of, image_step, is_sized, joined, law_unpadded_length,
    law_unpadded_pixel, pixels_of, png_file, unpadded,
};
use crate::image_cache::{CacheStepView, ColorType};
use crate::text::decimal;

verus! {

/// The file that is written for an image with positive sides is the PNG file of its width
/// and its height, in that order, with as many samples per pixel as it has channels, and
/// made of its pixels without padding, which are as many as the sides ask for.
pub proof fn law_the_file_has_the_sides_of_the_image(
    image: BorrowedImageData,
    dir: Seq<char>,
    exists: bool,
)
    requires
        image.width > 0,
        image.height > 0,
        image_step(image, dir, exists) is Write,
    ensures
        ({
            let pixels = pixels_of(image.width, image.channels, image.rowstride, image.data@);
            &&& image_step(image, dir, exists)->contents == png_file(
                image.width as u32,
                image.height as u32,
                image.channels as int,
                pixels,
            )
            &&& pixels.len() == image.width * image.channels * image.height
            &&& !exists
            &&& image.bits_per_sample == 8
            &&& image.channels == 3 || image.channels == 4
        }),
{
}

/// Every byte of an image keeps its row and its column: without padding, the byte at a
/// column of a row is the one at that column of that row as the rows were laid out, for
/// every row that is there in full.
pub proof fn law_pixels_keep_their_place(
    width: i32,
    channels: i32,
    rowstride: i32,
    data: Seq<u8>,
    y: int,
    x: int,
)
    requires
        0 < channels * width <= rowstride,
        0 <= y,
        0 <= x < channels * width,
        y * rowstride + channels * width <= data.len(),
    ensures
        ({
            let pixels = pixels_of(width, channels, rowstride, data);
            let row = channels * width;
            y * row + x < pixels.len() && pixels[y * row + x] == data[y * rowstride + x]
        }),
{
    let row = channels * width;
    if rowstride != row {
        law_unpadded_pixel(data, rowstride as int, row, y, x);
    }
}

/// An image of the kinds that are cached, with positive sides and all its rows there, is
/// written to its file if that is not there yet.
pub proof fn law_a_complete_image_is_written(image: BorrowedImageData, dir: Seq<char>)
    requires
        image.bits_per_sample == 8,
        image.channels == 3 || image.channels == 4,
        image.width > 0,
        image.height > 0,
        image.channels * image.width <= image.rowstride,
        image.data@.len() == image.height * image.rowstride,
    ensures
        image_step(image, dir, false) is Write,
        image_step(image, dir, false)->dir == dir,
        image_path_of(image, dir) == Some(image_step(image, dir, false)->path),
{
    let row = image.channels * image.width;
    let pixels = pixels_of(image.width, image.channels, image.rowstride, image.data@);
    assert(row > 0) by (nonlinear_arith)
        requires
            row == image.channels * image.width,
            image.channels > 0,
            image.width > 0,
    ;
    if image.rowstride != row {
        law_unpadded_length(image.data@, image.rowstride as int, row, image.height as nat);
    }
    assert(image.height * row == image.width * image.channels * image.height) by (nonlinear_arith)
        requires
            row == image.channels * image.width,
    ;
    assert(pixels.len() == image.width * image.channels * image.height);
    assert(as_unsigned(image.width) == image.width);
    assert(as_unsigned(image.height) == image.height);
}

/// An image whose file is there is not written again; it is found under the path that it
/// would be written to. An image of another kind is neither written nor found.
pub proof fn law_a_cached_image_is_found(image: BorrowedImageData, dir: Seq<char>)
    ensures
        color_type_of(image.bits_per_sample, image.channels) is Some ==> image_step(
            image,
            dir,
            true,
        ) == CacheStepView::Finished(Some(file_path(dir, cache_name(image.data@, ".png"@)))),
        image_step(image, dir, false) matches CacheStepView::Write { path, .. } ==> image_step(
            image,
            dir,
            true,
        ) == CacheStepView::Finished(Some(path)),
        color_type_of(image.bits_per_sample, image.channels) is None ==> image_step(
            image,
            dir,
            true,
        ) == CacheStepView::Finished(None) && image_step(image, dir, false)
            == CacheStepView::Finished(None),
        color_type_of(image.bits_per_sample, image.channels) is Some && !(image_step(
            image,
            dir,
            false,
        ) is Write) ==> image_step(image, dir, false) == CacheStepView::OnlyDirectory(dir),
{
}

/// The path of a cached image is decided by its bytes alone: two images of the same bytes
/// share a file, whatever their sides, and the name is the decimal hash of the bytes.
pub proof fn law_the_bytes_name_the_file(
    image: BorrowedImageData,
    other: BorrowedImageData,
    dir: Seq<char>,
    data: Seq<u8>,
)
    ensures
        image.data@ == other.data@ && image_path_of(image, dir) is Some && image_path_of(
            other,
            dir,
        ) is Some ==> image_path_of(image, dir) == image_path_of(other, dir),
        cache_name(data, ".png"@) == decimal(hash_of(data) as nat) + ".png"@,
        cache_name(data, ".img"@) == decimal(hash_of(data) as nat) + ".img"@,
        data.len() == 0 ==> encoded_path(data, dir) is None,
        data.len() > 0 ==> encoded_path(data, dir) == Some(
            file_path(dir, cache_name(data, ".img"@)),
        ),
        image_path_of(image, dir) is Some ==> image_path_of(image, dir) == Some(
            file_path(dir, cache_name(image.data@, ".png"@)),
        ),
{
}

/// Only eight bits per sample with three or four channels are cached, as RGB and as RGBA,
/// with as many samples per pixel as there are channels.
pub proof fn law_only_rgb_and_rgba_are_cached(bits_per_sample: i32, channels: i32)
    ensures
        color_type_of(bits_per_sample, channels) is Some <==> bits_per_sample == 8 && (channels
            == 3 || channels == 4),
        color_type_of(bits_per_sample, channels) matches Some(color) ==> color.samples()
            == channels,
        color_type_of(8, 3) == Some(ColorType::Rgb),
        color_type_of(8, 4) == Some(ColorType::Rgba),
{
}

/// An image with positive sides can be encoded exactly if its row is a number, its rows are
/// some bytes apart, and its size is one that memory can have.
pub proof fn law_positive_sides_can_be_encoded(image: BorrowedImageData)
    requires
        image.width > 0,
        image.height > 0,
        image.channels == 3 || image.channels == 4,
    ensures
        is_sized(image) <==> image.channels * image.width <= i32::MAX && image.rowstride != 0
            && image.width * image.channels < usize::MAX && image.width * image.channels
            * image.height <= usize::MAX,
{
    assert(image.channels * image.width > 0) by (nonlinear_arith)
        requires
            image.channels > 0,
            image.width > 0,
    ;
}

/// A number that is not negative is the same size and the same unsigned number; a negative
/// one wraps around.
pub proof fn law_negative_numbers_wrap(x: i32)
    ensures
        x >= 0 ==> as_unsigned(x) == x && as_size(x as int) == x,
        x < 0 ==> as_unsigned(x) == x + 0x1_0000_0000 && as_size(x as int) == x + usize::MAX + 1,
{
}

/// A path below a directory is the directory, a separator and the path, with no second
/// separator; an absolute path stays as it is.
pub proof fn law_paths_are_joined_by_one_separator(base: Seq<char>, path: Seq<char>)
    ensures
        path.len() > 0 && path[0] == '/' ==> joined(base, path) == path,
        !(path.len() > 0 && path[0] == '/') && base.len() > 0 && base.last() != '/' ==> joined(
            base,
            path,
        ) == base + "/"@ + path,
        !(path.len() > 0 && path[0] == '/') && base.len() > 0 && base.last() == '/' ==> joined(
            base,
            path,
        ) == base + path,
        !(path.len() > 0 && path[0] == '/') && base.len() == 0 ==> joined(base, path) == path,
        file_path(base, path) == joined(base, path),
{
    reveal_strlit("/");
    assert("/"@ =~= seq!['/']);
    assert(base.push('/') + path =~= base + "/"@ + path);
    if base.len() == 0 {
        assert(base + path =~= path);
    }
}

/// The cache lies below the cache directory of the environment, else below `.cache` in the
/// home directory, else below `/tmp`.
pub proof fn law_the_cache_follows_the_environment(
    xdg: Seq<char>,
    home: Option<Seq<char>>,
    dir: Seq<char>,
)
    ensures
        cache_dir_of(Some(xdg), home) == joined(xdg, "wayle/notifications"@),
        cache_dir_of(None, Some(dir)) == joined(dir + "/.cache"@, "wayle/notifications"@),
        cache_dir_of(None, None) == joined("/tmp"@, "wayle/notifications"@),
{
}

/// Whether the file of an image is written depends on the image alone: exactly if neither
/// side is zero and its pixels without padding are as many as its sides ask for, it is, and
/// holds the PNG file of its sides. Sides that are negative count as the unsigned numbers
/// that they wrap to.
pub proof fn law_exactly_complete_images_are_written(image: BorrowedImageData, dir: Seq<char>)
    requires
        image.bits_per_sample == 8,
        image.channels == 3 || image.channels == 4,
    ensures
        ({
            let width = as_unsigned(image.width);
            let height = as_unsigned(image.height);
            let pixels = pixels_of(image.width, image.channels, image.rowstride, image.data@);
            let step = image_step(image, dir, false);
            &&& step is Write <==> image.width != 0 && image.height != 0 && pixels.len() == width
                * image.channels * height
            &&& step is Write ==> step->contents == png_file(
                width,
                height,
                image.channels as int,
                pixels,
            )
        }),
{
}

/// Rows are taken one by one: of a first row and the rest, the pixels of the row and then
/// those of the rest. Of one row, or what there is of a last one, the pixels are its
/// beginning, as long as a row without padding, or all of it if it is shorter.
pub proof fn law_rows_are_taken_one_by_one(
    first: Seq<u8>,
    rest: Seq<u8>,
    last: Seq<u8>,
    stride: int,
    row: int,
)
    requires
        stride > 0,
        row >= 0,
        first.len() == stride,
        rest.len() > 0,
        0 < last.len() <= stride,
    ensures
        unpadded(first + rest, stride, row) == unpadded(first, stride, row) + unpadded(
            rest,
            stride,
            row,
        ),
        row <= last.len() ==> unpadded(last, stride, row) == last.take(row),
        row >= last.len() ==> unpadded(last, stride, row) == last,
        unpadded(seq![], stride, row).len() == 0,
{
    assert((first + rest).take(stride) =~= first);
    assert((first + rest).skip(stride) =~= rest);
    if row < stride {
        assert((first + rest).take(row) =~= first.take(row));
    }
    if row == last.len() {
        assert(last.take(row) =~= last);
    }
}

/// An image whose rows have no padding is taken as it is; any other row by row.
pub proof fn law_rows_without_padding_stay(
    width: i32,
    channels: i32,
    rowstride: i32,
    data: Seq<u8>,
)
    requires
        channels * width >= 0,
        rowstride >= 0,
    ensures
        rowstride == channels * width ==> pixels_of(width, channels, rowstride, data) == data,
        rowstride != channels * width ==> pixels_of(width, channels, rowstride, data) == unpadded(
            data,
            rowstride as int,
            channels * width,
        ),
{
}

/// An image can be encoded exactly if the length of its row is a number, its rows are some
/// bytes apart or empty, and its size is one that memory can have, whatever the signs of
/// its sides.
pub proof fn law_sized_images(image: BorrowedImageData)
    ensures
        ({
            let line = as_unsigned(image.width) * image.channels;
            is_sized(image) <==> i32::MIN <= image.channels * image.width <= i32::MAX && (
            image.rowstride == 0 ==> image.channels * image.width == 0) && line < usize::MAX
                && line * as_unsigned(image.height) <= usize::MAX
        }),
{
}

/// The rows of an image are some bytes apart exactly if its stride is not zero; empty rows
/// need not be.
pub proof fn law_strides(image: BorrowedImageData)
    ensures
        image.rowstride != 0 ==> has_stride(image),
        image.rowstride == 0 ==> has_stride(image) == (image.channels * image.width == 0),
        is_sized(image) ==> has_stride(image),
{
}

} // verus!
