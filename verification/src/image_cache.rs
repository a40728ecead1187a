//! The on-disk cache of notification images: where an image goes, and what is written.

use std::borrow::Cow;
use std::collections::hash_map::DefaultHasher;
use std::hash::Hasher;
use vstd::prelude::*;
use vstd::std_specs::hash::DefaultHasherAdditionalSpecFns;
use vstd::string::*;

use crate::hints::BorrowedImageData;
use crate::text::{decimal, join_two, write_decimal};

verus! {

/// The only depth of a sample that is cached.
pub const EXPECTED_BITS_PER_SAMPLE: i32 = 8;

/// Channels of an RGB image.
pub const RGB_CHANNELS: i32 = 3;

/// Channels of an RGBA image.
pub const RGBA_CHANNELS: i32 = 4;

/// Color type of a PNG file.
#[derive(Debug, Clone, Copy, PartialEq, Eq, Structural)]
pub enum ColorType {
    /// Red, green, blue.
    Rgb,
    /// Red, green, blue, alpha.
    Rgba,
}

impl ColorType {
    /// Bytes per pixel at eight bits per sample.
    pub open spec fn samples(self) -> int {
        match self {
            ColorType::Rgb => 3,
            ColorType::Rgba => 4,
        }
    }
}

/// The color type of raw pixels: RGB or RGBA at eight bits per sample, nothing else.
pub open spec fn color_type_of(bits_per_sample: i32, channels: i32) -> Option<ColorType> {
    if bits_per_sample != EXPECTED_BITS_PER_SAMPLE {
        None
    } else if channels == RGB_CHANNELS {
        Some(ColorType::Rgb)
    } else if channels == RGBA_CHANNELS {
        Some(ColorType::Rgba)
    } else {
        None
    }
}

/// The color type of raw pixels: RGB or RGBA at eight bits per sample, nothing else.
pub fn png_color_type(bits_per_sample: i32, channels: i32) -> (color: Option<ColorType>)
    ensures
        color == color_type_of(bits_per_sample, channels),
{
    if bits_per_sample != EXPECTED_BITS_PER_SAMPLE {
        return None;
    }
    if channels == RGB_CHANNELS {
        Some(ColorType::Rgb)
    } else if channels == RGBA_CHANNELS {
        Some(ColorType::Rgba)
    } else {
        None
    }
}

/// A signed number taken as a size: negative numbers wrap around.
pub open spec fn as_size(x: int) -> int {
    if x >= 0 {
        x
    } else {
        usize::MAX + 1 + x
    }
}

/// A signed number taken as an unsigned one: negative numbers wrap around.
pub open spec fn as_unsigned(x: i32) -> u32 {
    if x >= 0 {
        x as u32
    } else {
        (u32::MAX + 1 + x) as u32
    }
}

fn wrap_to_size(x: i32) -> (size: usize)
    ensures
        size == as_size(x as int),
{
    if x >= 0 {
        x as usize
    } else {
        let below: i64 = -(x as i64) - 1;
        usize::MAX - below as usize
    }
}

fn wrap_to_unsigned(x: i32) -> (value: u32)
    ensures
        value == as_unsigned(x),
{
    if x >= 0 {
        x as u32
    } else {
        let below: i64 = -(x as i64) - 1;
        u32::MAX - below as u32
    }
}

/// The pixels of an image without the padding at the end of its rows: of every `stride`
/// bytes, the first `row`.
pub open spec fn unpadded(data: Seq<u8>, stride: int, row: int) -> Seq<u8>
    decreases data.len(),
{
    if data.len() == 0 || stride <= 0 {
        seq![]
    } else if data.len() <= stride {
        if row < data.len() {
            data.take(row)
        } else {
            data
        }
    } else {
        (if row < stride {
            data.take(row)
        } else {
            data.take(stride)
        }) + unpadded(data.skip(stride), stride, row)
    }
}

/// The pixels that an image file is made of.
pub open spec fn pixels_of(width: i32, channels: i32, rowstride: i32, data: Seq<u8>) -> Seq<u8> {
    if as_size(rowstride as int) == as_size(channels * width) {
        data
    } else {
        unpadded(data, as_size(rowstride as int), as_size(channels * width))
    }
}

/// Whether the rows of an image can be told apart: the length of a row is a number, and
/// there are rows.
pub open spec fn has_rows(width: i32, channels: i32, rowstride: i32) -> bool {
    i32::MIN <= channels * width <= i32::MAX && (rowstride == 0 ==> channels * width == 0)
}

/// Removes the padding at the end of the rows of an image.
pub fn strip_rowstride_padding<'a>(
    width: i32,
    channels: i32,
    rowstride: i32,
    data: &'a [u8],
) -> (pixels: Cow<'a, [u8]>)
    requires
        has_rows(width, channels, rowstride),
    ensures
        pixels@ == pixels_of(width, channels, rowstride, data@),
{
    let row_bytes: usize = wrap_to_size(channels * width);
    let rowstride: usize = wrap_to_size(rowstride);

    if rowstride == row_bytes {
        return Cow::Borrowed(data);
    }
    let mut pixels: Vec<u8> = Vec::new();
    let mut start: usize = 0;
    assert(data@.skip(0) =~= data@);
    assert(pixels@ + unpadded(data@, rowstride as int, row_bytes as int) =~= unpadded(
        data@,
        rowstride as int,
        row_bytes as int,
    ));
    while start < data.len()
        invariant
            start <= data@.len(),
            rowstride > 0,
            pixels@ + unpadded(data@.skip(start as int), rowstride as int, row_bytes as int)
                == unpadded(data@, rowstride as int, row_bytes as int),
        decreases data@.len() - start,
    {
        let ghost rest = data@.skip(start as int);
        let ghost before = pixels@;
        let left: usize = data.len() - start;
        let chunk: usize = if rowstride < left {
            rowstride
        } else {
            left
        };
        let keep: usize = if row_bytes < chunk {
            row_bytes
        } else {
            chunk
        };
        let total: usize = data.len();
        let mut i: usize = 0;
        while i < keep
            invariant
                i <= keep,
                start + keep <= total,
                total == data@.len(),
                pixels@ == before + data@.subrange(start as int, start + i),
            decreases keep - i,
        {
            pixels.push(data[start + i]);
            i += 1;
            assert(pixels@ =~= before + data@.subrange(start as int, start + i));
        }
        proof {
            assert(data@.subrange(start as int, start + keep) =~= rest.take(keep as int));
            assert(rest.skip(chunk as int) =~= data@.skip(start + chunk));
            if rest.len() <= rowstride {
                assert(rest.take(rest.len() as int) =~= rest);
                assert(data@.skip(start + chunk) =~= seq![]);
            }
            assert(pixels@ + unpadded(
                data@.skip(start + chunk),
                rowstride as int,
                row_bytes as int,
            ) =~= before + unpadded(rest, rowstride as int, row_bytes as int));
        }
        start = start + chunk;
    }
    assert(data@.skip(start as int) =~= seq![]);
    assert(pixels@ =~= unpadded(data@, rowstride as int, row_bytes as int));
    Cow::Owned(pixels)
}

/// Padding never moves a pixel: the byte at a column of a row is the byte at that column of
/// that row of the padded image, for every row that is there in full.
pub proof fn law_unpadded_pixel(data: Seq<u8>, stride: int, row: int, y: int, x: int)
    requires
        0 < row <= stride,
        0 <= y,
        0 <= x < row,
        y * stride + row <= data.len(),
    ensures
        y * row + x < unpadded(data, stride, row).len(),
        unpadded(data, stride, row)[y * row + x] == data[y * stride + x],
    decreases y,
{
    assert(y * stride >= 0) by (nonlinear_arith)
        requires
            y >= 0,
            stride > 0,
    ;
    if y > 0 {
        assert(y * stride == (y - 1) * stride + stride) by (nonlinear_arith);
        assert(y * row == (y - 1) * row + row) by (nonlinear_arith);
        assert((y - 1) * stride >= 0) by (nonlinear_arith)
            requires
                y > 0,
                stride > 0,
        ;
        assert((y - 1) * row >= 0) by (nonlinear_arith)
            requires
                y > 0,
                row > 0,
        ;
        law_unpadded_pixel(data.skip(stride), stride, row, y - 1, x);
    } else {
        assert(y * row == 0 && y * stride == 0) by (nonlinear_arith)
            requires
                y == 0,
        ;
    }
}

/// An image of full padded rows becomes exactly its rows.
pub proof fn law_unpadded_length(data: Seq<u8>, stride: int, row: int, height: nat)
    requires
        0 < row <= stride,
        data.len() == height * stride,
    ensures
        unpadded(data, stride, row).len() == height * row,
    decreases height,
{
    if height == 0 {
        assert(height * row == 0 && height * stride == 0) by (nonlinear_arith)
            requires
                height == 0,
        ;
    } else {
        let fewer = (height - 1) as nat;
        assert(height * stride == fewer * stride + stride) by (nonlinear_arith)
            requires
                height == fewer + 1,
        ;
        assert(height * row == fewer * row + row) by (nonlinear_arith)
            requires
                height == fewer + 1,
        ;
        assert(fewer * stride >= 0) by (nonlinear_arith)
            requires
                stride > 0,
        ;
        law_unpadded_length(data.skip(stride), stride, row, fewer);
        if fewer == 0 {
            assert(fewer * row == 0 && fewer * stride == 0) by (nonlinear_arith)
                requires
                    fewer == 0,
            ;
        } else {
            assert(fewer * stride > 0) by (nonlinear_arith)
                requires
                    fewer > 0,
                    stride > 0,
            ;
        }
    }
}

/// Whether the size of an image is a number.
pub open spec fn size_fits(width: u32, height: u32, samples: int) -> bool {
    width * samples < usize::MAX && width * samples * height <= usize::MAX
}

/// Whether neither side of an image is zero, and the pixels are as many as the sides ask
/// for.
pub open spec fn is_complete(width: u32, height: u32, samples: int, pixels: Seq<u8>) -> bool {
    width > 0 && height > 0 && pixels.len() == width * samples * height
}

/// The PNG file of an image of a width, a height and a number of samples per pixel, at
/// eight bits per sample and fast compression.
pub uninterp spec fn png_file(width: u32, height: u32, samples: int, pixels: Seq<u8>) -> Seq<u8>;

/// Encodes an image in memory with `png::Encoder`: `set_color`, `set_depth` eight,
/// `set_compression` fast, `write_header` and `write_image_data`. There is a file exactly
/// when neither side is zero and the pixels are as many as the sides ask for. What the
/// bytes of the file are is left to the encoder.
#[verifier::external_body]
fn encode_png(width: u32, height: u32, color: ColorType, pixels: &[u8]) -> (file: Option<Vec<u8>>)
    requires
        size_fits(width, height, color.samples()),
    ensures
        file is Some == is_complete(width, height, color.samples(), pixels@),
        file matches Some(f) ==> f@ == png_file(width, height, color.samples(), pixels@),
{
    let mut file = Vec::new();
    let mut encoder = png::Encoder::new(&mut file, width, height);
    encoder.set_color(match color {
        ColorType::Rgb => png::ColorType::Rgb,
        ColorType::Rgba => png::ColorType::Rgba,
    });
    encoder.set_depth(png::BitDepth::Eight);
    encoder.set_compression(png::Compression::Fast);
    let mut writer = encoder.write_header().ok()?;
    writer.write_image_data(pixels).ok()?;
    drop(writer);
    Some(file)
}

/// Whether an image can be encoded: its rows can be told apart, and its size is a number.
pub open spec fn is_sized(image: BorrowedImageData) -> bool {
    &&& has_rows(image.width, image.channels, image.rowstride)
    &&& size_fits(as_unsigned(image.width), as_unsigned(image.height), image.channels as int)
}

/// Whether an image can be encoded: its rows can be told apart, and its size is a number.
pub fn check_sized(image: &BorrowedImageData) -> (sized: bool)
    requires
        color_type_of(image.bits_per_sample, image.channels) is Some,
    ensures
        sized == is_sized(*image),
{
    let channels: i64 = image.channels as i64;
    assert(-0x4_0000_0000 <= channels * image.width <= 0x4_0000_0000) by (nonlinear_arith)
        requires
            3 <= channels <= 4,
            -0x8000_0000 <= image.width <= 0x7fff_ffff,
    ;
    let row: i64 = channels * image.width as i64;
    if row < i32::MIN as i64 || row > i32::MAX as i64 {
        return false;
    }
    if image.rowstride == 0 && row != 0 {
        return false;
    }
    let width: u128 = wrap_to_unsigned(image.width) as u128;
    let height: u128 = wrap_to_unsigned(image.height) as u128;
    let samples: u128 = image.channels as u128;
    assert(0 <= width * samples <= 0x4_0000_0000) by (nonlinear_arith)
        requires
            3 <= samples <= 4,
            0 <= width <= 0xffff_ffff,
    ;
    let line: u128 = width * samples;
    assert(0 <= line * height <= 0x4_0000_0000 * 0x1_0000_0000) by (nonlinear_arith)
        requires
            0 <= line <= 0x4_0000_0000,
            0 <= height <= 0x1_0000_0000,
    ;
    line < usize::MAX as u128 && line * height <= usize::MAX as u128
}

/// The PNG file of raw pixels, if they can be encoded.
pub open spec fn image_file(image: BorrowedImageData) -> Option<Seq<u8>> {
    let width = as_unsigned(image.width);
    let height = as_unsigned(image.height);
    let pixels = pixels_of(image.width, image.channels, image.rowstride, image.data@);
    match color_type_of(image.bits_per_sample, image.channels) {
        Some(color) => if is_complete(width, height, color.samples(), pixels) {
            Some(png_file(width, height, color.samples(), pixels))
        } else {
            None
        },
        None => None,
    }
}

/// The little-endian bytes of a number of bytes, as many as a size has.
pub open spec fn length_bytes(length: nat) -> Seq<u8> {
    if usize::BITS == 32 {
        vstd::bytes::spec_u32_to_le_bytes(length as u32)
    } else {
        vstd::bytes::spec_u64_to_le_bytes(length as u64)
    }
}

/// The hash of some bytes: of their number and then of the bytes themselves.
pub open spec fn hash_of(data: Seq<u8>) -> u64 {
    DefaultHasher::spec_finish(seq![length_bytes(data.len()), data])
}

/// Hashes some bytes: their number, then the bytes.
pub fn content_hash(data: &[u8]) -> (hash: u64)
    ensures
        hash == hash_of(data@),
{
    let mut hasher = DefaultHasher::new();
    let length = if usize::BITS == 32 {
        vstd::bytes::u32_to_le_bytes(data.len() as u32)
    } else {
        vstd::bytes::u64_to_le_bytes(data.len() as u64)
    };
    hasher.write(length.as_slice());
    hasher.write(data);
    assert(hasher@ =~= seq![length_bytes(data@.len()), data@]);
    hasher.finish()
}

/// A path below a directory: an absolute path stays as it is, and a separator is put
/// between the two where there is none.
pub open spec fn joined(base: Seq<char>, path: Seq<char>) -> Seq<char> {
    if path.len() > 0 && path[0] == '/' {
        path
    } else if base.len() == 0 || base.last() == '/' {
        base + path
    } else {
        base.push('/') + path
    }
}

/// A path below a directory.
pub(crate) fn join_path(base: &str, path: &str) -> (whole: String)
    ensures
        whole@ == joined(base@, path@),
{
    let parts: usize = path.unicode_len();
    if parts > 0 && path.get_char(0) == '/' {
        return path.to_owned();
    }
    let length: usize = base.unicode_len();
    if length == 0 || base.get_char(length - 1) == '/' {
        return join_two(base, path);
    }
    let mut whole = base.to_owned();
    whole.push('/');
    whole.append(path);
    whole
}

/// The cache directory, by what the environment says: below `XDG_CACHE_HOME`, else below
/// `.cache` in `HOME`, else below `/tmp`.
pub open spec fn cache_dir_of(xdg: Option<Seq<char>>, home: Option<Seq<char>>) -> Seq<char> {
    let base = match (xdg, home) {
        (Some(xdg), _) => xdg,
        (None, Some(home)) => home + "/.cache"@,
        (None, None) => "/tmp"@,
    };
    joined(base, "wayle/notifications"@)
}

/// The cache directory, by the values of `XDG_CACHE_HOME` and `HOME`.
pub fn cache_dir(xdg_cache_home: Option<String>, home: Option<String>) -> (dir: String)
    ensures
        dir@ == cache_dir_of(xdg_cache_home.deep_view(), home.deep_view()),
{
    let base = match xdg_cache_home {
        Some(xdg) => xdg,
        None => match home {
            Some(home) => join_two(home.as_str(), "/.cache"),
            None => "/tmp".to_owned(),
        },
    };
    join_path(base.as_str(), "wayle/notifications")
}

/// A file of the cache.
pub struct CachePath {
    /// The cache directory.
    pub dir: String,
    /// The name of the file.
    pub file: String,
}

/// The path of a cached file.
pub open spec fn file_path(dir: Seq<char>, file: Seq<char>) -> Seq<char> {
    joined(dir, file)
}

/// The path of a cached file as text.
pub fn path_to_string(path: &CachePath) -> (text: String)
    ensures
        text@ == file_path(path.dir@, path.file@),
{
    join_path(path.dir.as_str(), path.file.as_str())
}

/// The name of a cached file: the hash of the contents in decimal, and an extension.
pub open spec fn cache_name(data: Seq<u8>, extension: Seq<char>) -> Seq<char> {
    decimal(hash_of(data) as nat) + extension
}

fn cache_path(data: &[u8], extension: &str, dir: &str) -> (path: CachePath)
    ensures
        path.dir@ == dir@,
        path.file@ == cache_name(data@, extension@),
{
    let mut file = write_decimal(content_hash(data));
    file.append(extension);
    CachePath { dir: dir.to_owned(), file }
}

/// What is to be done to cache an image.
pub enum CacheStep {
    /// Nothing: the image is at this path, or cannot be cached.
    Finished(Option<String>),
    /// Create the directory: the image cannot be encoded, so there is no file.
    OnlyDirectory(String),
    /// Create the directory and write the file.
    Write {
        /// The directory.
        dir: String,
        /// The path of the file.
        path: String,
        /// The bytes of the file.
        contents: Vec<u8>,
    },
}

/// What a [`CacheStep`] denotes.
pub enum CacheStepView {
    /// Nothing is left to do.
    Finished(Option<Seq<char>>),
    /// Create the directory.
    OnlyDirectory(Seq<char>),
    /// Create the directory and write the file.
    Write {
        /// The directory.
        dir: Seq<char>,
        /// The path of the file.
        path: Seq<char>,
        /// The bytes of the file.
        contents: Seq<u8>,
    },
}

impl View for CacheStep {
    type V = CacheStepView;

    open spec fn view(&self) -> CacheStepView {
        match self {
            CacheStep::Finished(path) => CacheStepView::Finished(path.deep_view()),
            CacheStep::OnlyDirectory(dir) => CacheStepView::OnlyDirectory(dir@),
            CacheStep::Write { dir, path, contents } => CacheStepView::Write {
                dir: dir@,
                path: path@,
                contents: contents@,
            },
        }
    }
}

/// Where an already-encoded image goes; an empty one goes nowhere.
pub open spec fn encoded_path(data: Seq<u8>, dir: Seq<char>) -> Option<Seq<char>> {
    if data.len() == 0 {
        None
    } else {
        Some(file_path(dir, cache_name(data, ".img"@)))
    }
}

/// Where an already-encoded image goes; an empty one goes nowhere.
pub fn encoded_image_path(data: &[u8], dir: &str) -> (path: Option<String>)
    ensures
        path.deep_view() == encoded_path(data@, dir@),
{
    if data.len() == 0 {
        return None;
    }
    Some(path_to_string(&cache_path(data, ".img", dir)))
}

/// Caches an already-encoded image blob (e.g. the PNG bytes from a GTK `bytes` icon)
/// verbatim. `exists` says whether the file of [`encoded_image_path`] is there.
pub fn cache_encoded_image(data: &[u8], dir: &str, exists: bool) -> (step: CacheStep)
    ensures
        step@ == (match encoded_path(data@, dir@) {
            None => CacheStepView::Finished(None),
            Some(path) => if exists {
                CacheStepView::Finished(Some(path))
            } else {
                CacheStepView::Write { dir: dir@, path, contents: data@ }
            },
        }),
{
    match encoded_image_path(data, dir) {
        None => CacheStep::Finished(None),
        Some(path) => {
            if exists {
                CacheStep::Finished(Some(path))
            } else {
                CacheStep::Write {
                    dir: dir.to_owned(),
                    path,
                    contents: crate::value::copy_bytes(data),
                }
            }
        },
    }
}

/// Where the file of raw pixels goes; pixels of another kind than RGB or RGBA at eight
/// bits go nowhere.
pub open spec fn image_path_of(image: BorrowedImageData, dir: Seq<char>) -> Option<Seq<char>> {
    match color_type_of(image.bits_per_sample, image.channels) {
        Some(color) => Some(file_path(dir, cache_name(image.data@, ".png"@))),
        None => None,
    }
}

/// Where the file of raw pixels goes.
pub fn borrowed_image_path(image: &BorrowedImageData, dir: &str) -> (path: Option<String>)
    ensures
        path.deep_view() == image_path_of(*image, dir@),
{
    match png_color_type(image.bits_per_sample, image.channels) {
        Some(color) => Some(path_to_string(&cache_path(image.data, ".png", dir))),
        None => None,
    }
}

/// What is done to cache raw pixels as a PNG file.
pub open spec fn image_step(
    image: BorrowedImageData,
    dir: Seq<char>,
    exists: bool,
) -> CacheStepView {
    match (image_path_of(image, dir), image_file(image)) {
        (None, _) => CacheStepView::Finished(None),
        (Some(path), file) => if exists {
            CacheStepView::Finished(Some(path))
        } else {
            match file {
                Some(contents) => CacheStepView::Write { dir, path, contents },
                None => CacheStepView::OnlyDirectory(dir),
            }
        },
    }
}

fn cache_image_data(
    width: i32,
    height: i32,
    rowstride: i32,
    bits_per_sample: i32,
    channels: i32,
    data: &[u8],
    dir: &str,
    exists: bool,
) -> (step: CacheStep)
    requires
        !exists && color_type_of(bits_per_sample, channels) is Some ==> is_sized(
            (BorrowedImageData { width, height, rowstride, bits_per_sample, channels, data }),
        ),
    ensures
        step@ == image_step(
            (BorrowedImageData { width, height, rowstride, bits_per_sample, channels, data }),
            dir@,
            exists,
        ),
{
    let color_type = match png_color_type(bits_per_sample, channels) {
        Some(color_type) => color_type,
        None => {
            return CacheStep::Finished(None);
        },
    };
    let path = path_to_string(&cache_path(data, ".png", dir));
    if exists {
        return CacheStep::Finished(Some(path));
    }
    let pixel_data = strip_rowstride_padding(width, channels, rowstride, data);
    let pixels: &[u8] = match &pixel_data {
        Cow::Borrowed(pixels) => *pixels,
        Cow::Owned(pixels) => pixels.as_slice(),
    };
    match encode_png(wrap_to_unsigned(width), wrap_to_unsigned(height), color_type, pixels) {
        Some(contents) => CacheStep::Write { dir: dir.to_owned(), path, contents },
        None => CacheStep::OnlyDirectory(dir.to_owned()),
    }
}

/// Caches borrowed raw pixel data as a PNG file. `exists` says whether the file of
/// [`borrowed_image_path`] is there.
pub fn cache_borrowed_image(image: BorrowedImageData<'_>, dir: &str, exists: bool) -> (step:
    CacheStep)
    requires
        !exists && color_type_of(image.bits_per_sample, image.channels) is Some ==> is_sized(image),
    ensures
        step@ == image_step(image, dir@, exists),
        image.width > 0 && image.height > 0 ==> (step@ matches CacheStepView::Write {
            contents,
            ..
        } ==> contents == png_file(
            image.width as u32,
            image.height as u32,
            image.channels as int,
            pixels_of(image.width, image.channels, image.rowstride, image.data@),
        )),
{
    cache_image_data(
        image.width,
        image.height,
        image.rowstride,
        image.bits_per_sample,
        image.channels,
        image.data,
        dir,
        exists,
    )
}

/// Whether the rows of an image are some bytes apart, or are empty.
pub open spec fn has_stride(image: BorrowedImageData) -> bool {
    image.rowstride != 0 || image.channels * image.width == 0
}

/// Whether the rows of an image are some bytes apart, or are empty.
pub fn check_stride(image: &BorrowedImageData) -> (apart: bool)
    ensures
        apart == has_stride(*image),
{
    assert(image.channels * image.width == 0 <==> image.channels == 0 || image.width == 0)
        by (nonlinear_arith);
    image.rowstride != 0 || image.channels == 0 || image.width == 0
}

/// Caches borrowed raw pixel data of any size as a PNG file, as [`cache_borrowed_image`]
/// does. An image that is too large to be encoded leaves only the directory.
pub fn cache_image_of_any_size(image: BorrowedImageData<'_>, dir: &str, exists: bool) -> (step:
    CacheStep)
    requires
        !exists && color_type_of(image.bits_per_sample, image.channels) is Some ==> has_stride(
            image,
        ),
    ensures
        step@ == (if !exists && color_type_of(image.bits_per_sample, image.channels) is Some
            && !is_sized(image) {
            CacheStepView::OnlyDirectory(dir@)
        } else {
            image_step(image, dir@, exists)
        }),
{
    if !exists && png_color_type(image.bits_per_sample, image.channels).is_some() && !check_sized(
        &image,
    ) {
        return CacheStep::OnlyDirectory(dir.to_owned());
    }
    cache_borrowed_image(image, dir, exists)
}

/// The path of an image after its file was to be written: none when that failed.
pub fn written_path(path: String, written: bool) -> (result: Option<String>)
    ensures
        result == (if written {
            Some(path)
        } else {
            None
        }),
{
    if written {
        Some(path)
    } else {
        None
    }
}

/// A cached file lies directly in the cache directory: its name begins with a digit and
/// holds no separator.
pub proof fn law_cache_name_stays_in_directory(data: Seq<u8>, dir: Seq<char>)
    requires
        dir.len() > 0,
        dir.last() != '/',
    ensures
        !cache_name(data, ".img"@).contains('/'),
        !cache_name(data, ".png"@).contains('/'),
        file_path(dir, cache_name(data, ".img"@)) == dir.push('/') + cache_name(data, ".img"@),
        file_path(dir, cache_name(data, ".png"@)) == dir.push('/') + cache_name(data, ".png"@),
{
    let digits = decimal(hash_of(data) as nat);
    crate::text::lemma_decimal_is_digits(hash_of(data) as nat);
    reveal_strlit(".img");
    reveal_strlit(".png");
    let img = cache_name(data, ".img"@);
    let png = cache_name(data, ".png"@);
    assert forall|i: int| 0 <= i < img.len() implies img[i] != '/' by {
        if i < digits.len() {
            assert(img[i] == digits[i]);
        }
    }
    assert forall|i: int| 0 <= i < png.len() implies png[i] != '/' by {
        if i < digits.len() {
            assert(png[i] == digits[i]);
        }
    }
    assert(img[0] == digits[0]);
    assert(png[0] == digits[0]);
}

} // verus!
