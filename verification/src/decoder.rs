use vstd::prelude::*;
use crate::bitmap::{Bitmap, SampleFormat, ThumbnailFormat};
use crate::error::ThumbError;
use crate::image_ops::{decode_image, decoded_meta, rgb8_black, rgb8_from_raw};

verus! {

/// Whether `format` is a compressed image payload that the codec layer
/// decodes as a whole, as opposed to a raw pixmap or an unknown format.
pub open spec fn is_compressed(format: ThumbnailFormat) -> bool {
    format == ThumbnailFormat::Jpeg || format == ThumbnailFormat::Png || format
        == ThumbnailFormat::Tiff
}

/// Decode an embedded thumbnail into a bitmap.
///
/// A compressed payload (JPEG, PNG, TIFF) is decoded as exactly the reported
/// format, with no content sniffing, and a payload that does not decode is a
/// `DecodeError`. A raw RGB8 pixmap takes `data` as interleaved samples of a
/// `width` x `height` image; when the buffer is shorter than the
/// `3 * width * height` bytes that requires, an all-black bitmap of exactly
/// `width` x `height` is produced instead of an error. Any other reported
/// format is an `UnsupportedFormat` error.
pub fn to_image(data: Vec<u8>, format: ThumbnailFormat, width: u32, height: u32) -> (r: Result<
    Bitmap,
    ThumbError,
>)
    requires
        format == ThumbnailFormat::Rgb8Pixmap ==> 3 * (width as int) * (height as int)
            <= usize::MAX as int,
    ensures
        r == Err::<Bitmap, ThumbError>(ThumbError::UnsupportedFormat) <==> format
            == ThumbnailFormat::Other,
        is_compressed(format) ==> (r is Ok <==> decoded_meta(format, data@) is Some),
        is_compressed(format) ==> (r matches Ok(b) ==> decoded_meta(format, data@) == Some(
            (b.spec_width(), b.spec_height(), b.spec_sample()),
        )),
        is_compressed(format) && decoded_meta(format, data@) is None ==> r == Err::<
            Bitmap,
            ThumbError,
        >(ThumbError::DecodeError),
        format == ThumbnailFormat::Rgb8Pixmap ==> (r matches Ok(b) && b.spec_width() == width
            && b.spec_height() == height && b.spec_sample() == SampleFormat::Int8),
{
    match format {
        ThumbnailFormat::Jpeg | ThumbnailFormat::Png | ThumbnailFormat::Tiff => {
            match decode_image(&data, format) {
                Ok(b) => Ok(b),
                Err(_) => Err(ThumbError::DecodeError),
            }
        },
        ThumbnailFormat::Rgb8Pixmap => {
            match rgb8_from_raw(width, height, data) {
                Some(b) => Ok(b),
                None => Ok(rgb8_black(width, height)),
            }
        },
        ThumbnailFormat::Other => Err(ThumbError::UnsupportedFormat),
    }
}

} // verus!
