//! The hints of an incoming notification: image data set apart from the rest.

use vstd::prelude::*;

use crate::value::NotificationHints;

verus! {

/// Raw pixels of an image.
#[derive(Debug, Clone, Copy)]
pub struct BorrowedImageData<'a> {
    /// Image width in pixels.
    pub width: i32,
    /// Image height in pixels.
    pub height: i32,
    /// Distance in bytes between row starts (may include padding).
    pub rowstride: i32,
    /// Bits per sample (always 8 in the protocol).
    pub bits_per_sample: i32,
    /// Number of channels (3 for RGB, 4 for RGBA).
    pub channels: i32,
    /// Borrowed raw pixel data in RGB or RGBA byte order.
    pub data: &'a [u8],
}

/// Image data as it arrives: width, height, rowstride, whether there is an alpha channel,
/// bits per sample, channels, pixels.
pub type RawImageData<'a> = (i32, i32, i32, bool, i32, i32, &'a [u8]);

/// The hints of an incoming notification.
pub struct IncomingHints<'a> {
    /// The `image-data` hint.
    pub image_data: Option<RawImageData<'a>>,
    /// The `image_data` hint.
    pub image_data_legacy: Option<RawImageData<'a>>,
    /// The `icon_data` hint.
    pub icon_data: Option<RawImageData<'a>>,
    /// All other hints.
    pub hints: NotificationHints,
}

/// The image that the hints carry: `image-data` before `image_data` before `icon_data`.
pub open spec fn preferred_image<'a>(hints: IncomingHints<'a>) -> Option<RawImageData<'a>> {
    match (hints.image_data, hints.image_data_legacy) {
        (Some(raw), _) => Some(raw),
        (None, Some(raw)) => Some(raw),
        (None, None) => hints.icon_data,
    }
}

impl<'a> IncomingHints<'a> {
    /// The image that the hints carry: `image-data` before `image_data` before
    /// `icon_data`.
    pub fn image_data(&self) -> (image: Option<BorrowedImageData<'a>>)
        ensures
            image == (match preferred_image(*self) {
                Some(raw) => Some(
                    BorrowedImageData {
                        width: raw.0,
                        height: raw.1,
                        rowstride: raw.2,
                        bits_per_sample: raw.4,
                        channels: raw.5,
                        data: raw.6,
                    },
                ),
                None => None,
            }),
    {
        let raw = match self.image_data {
            Some(raw) => raw,
            None => match self.image_data_legacy {
                Some(raw) => raw,
                None => match self.icon_data {
                    Some(raw) => raw,
                    None => {
                        return None;
                    },
                },
            },
        };
        Some(
            BorrowedImageData {
                width: raw.0,
                height: raw.1,
                rowstride: raw.2,
                bits_per_sample: raw.4,
                channels: raw.5,
                data: raw.6,
            },
        )
    }

    /// The hints without the image data.
    pub fn into_owned(self) -> (hints: NotificationHints)
        ensures
            hints == self.hints,
    {
        self.hints
    }
}

/// Of the images that the hints carry, `image-data` comes before `image_data`, and that
/// before `icon_data`; there is an image exactly if one of them is there.
pub proof fn law_image_data_comes_first(hints: IncomingHints)
    ensures
        hints.image_data is Some ==> preferred_image(hints) == hints.image_data,
        hints.image_data is None && hints.image_data_legacy is Some ==> preferred_image(hints)
            == hints.image_data_legacy,
        hints.image_data is None && hints.image_data_legacy is None ==> preferred_image(hints)
            == hints.icon_data,
{
}

} // verus!
