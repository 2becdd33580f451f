use vstd::prelude::*;
use crate::bitmap::{SampleFormat, ThumbnailFormat, png_encode_ok, png_signature, render_within_limits};
use crate::decoder::{is_compressed, to_image};
use crate::error::ThumbError;
use crate::image_ops::decoded_meta;
use crate::orientation::{ExifOrientation, mirrored_of_tag, rotation_of_tag};
use crate::writer::{PngOutput, fits_resize_limits, render_thumbnail, thumbnail_dims};

verus! {

/// The orientation correction that an EXIF orientation tag in 0..=8
/// resolves to.
pub open spec fn orientation_of_tag(tag: u32) -> ExifOrientation {
    ExifOrientation { rotate: rotation_of_tag(tag), mirrored: mirrored_of_tag(tag) }
}

/// Pixel dimensions and sample format of the decoded source bitmap, as the
/// reported format decides them: a raw RGB8 pixmap always yields the
/// reported dimensions with 8-bit samples (short buffers fall back to a
/// black bitmap of that size), a compressed payload yields whatever it
/// decodes to, and an unknown format yields nothing.
pub open spec fn source_meta(
    format: ThumbnailFormat,
    data: Seq<u8>,
    width: u32,
    height: u32,
) -> Option<(u32, u32, SampleFormat)> {
    if format == ThumbnailFormat::Rgb8Pixmap {
        Some((width, height, SampleFormat::Int8))
    } else if is_compressed(format) {
        decoded_meta(format, data)
    } else {
        None::<(u32, u32, SampleFormat)>
    }
}

/// What a successful pipeline run promises of its output: the orientation
/// tag was valid, the PNG's pixel dimensions are the decoded source's
/// dimensions resized to the requested bound and swapped per the tag's
/// rotation, and the bytes open with the PNG signature.
pub open spec fn thumbnail_output_ok(
    format: ThumbnailFormat,
    data: Seq<u8>,
    width: u32,
    height: u32,
    tag: u32,
    size: u32,
    p: PngOutput,
) -> bool {
    &&& tag <= 8
    &&& source_meta(format, data, width, height) matches Some(m) && (p.width, p.height)
        == thumbnail_dims(m.0, m.1, orientation_of_tag(tag), size)
    &&& p.bytes@.len() >= 8
    &&& p.bytes@.subrange(0, 8) == png_signature()
}

/// Run the whole in-memory pipeline on one embedded thumbnail: resolve the
/// orientation tag, decode the payload per its reported format, resize to
/// fit `size` x `size`, mirror and rotate, and encode as PNG.
///
/// The checks happen in that order, so an invalid tag wins over a bad
/// payload, and an unknown format wins over a decode failure. On success the
/// output dimensions are pinned by [`thumbnail_output_ok`], and success is
/// owed whenever the decoded source can be taken through resizing on this
/// machine and the result can be PNG-encoded. A decoded source so wide that
/// this machine cannot address the resampler's buffers is reported as
/// `EncodeError`, rather than reaching the resampler's own abort.
pub fn process_thumbnail(
    data: Vec<u8>,
    format: ThumbnailFormat,
    width: u32,
    height: u32,
    orientation_tag: u32,
    size: u32,
) -> (r: Result<PngOutput, ThumbError>)
    requires
        format == ThumbnailFormat::Rgb8Pixmap ==> 3 * (width as int) * (height as int)
            <= usize::MAX as int,
    ensures
        orientation_tag > 8 ==> r == Err::<PngOutput, ThumbError>(
            ThumbError::InvalidOrientation(orientation_tag),
        ),
        orientation_tag <= 8 ==> {
            &&& (format == ThumbnailFormat::Other <==> r == Err::<PngOutput, ThumbError>(
                ThumbError::UnsupportedFormat,
            ))
            &&& (is_compressed(format) && decoded_meta(format, data@) is None <==> r == Err::<
                PngOutput,
                ThumbError,
            >(ThumbError::DecodeError))
            &&& (r matches Ok(p) ==> thumbnail_output_ok(
                format,
                data@,
                width,
                height,
                orientation_tag,
                size,
                p,
            ))
            &&& (source_meta(format, data@, width, height) is Some ==> r is Ok || r == Err::<
                PngOutput,
                ThumbError,
            >(ThumbError::EncodeError))
            &&& (source_meta(format, data@, width, height) matches Some(m)
                && !render_within_limits(m.0, m.1, size) ==> r == Err::<PngOutput, ThumbError>(
                ThumbError::EncodeError,
            ))
            &&& (source_meta(format, data@, width, height) matches Some(m)
                && render_within_limits(m.0, m.1, size) && png_encode_ok(
                m.2,
                thumbnail_dims(m.0, m.1, orientation_of_tag(orientation_tag), size).0,
                thumbnail_dims(m.0, m.1, orientation_of_tag(orientation_tag), size).1,
            ) ==> r is Ok)
        },
{
    let orientation = match ExifOrientation::from_exif(orientation_tag) {
        Ok(o) => o,
        Err(e) => {
            return Err(e);
        },
    };
    let bitmap = match to_image(data, format, width, height) {
        Ok(b) => b,
        Err(e) => {
            return Err(e);
        },
    };
    if fits_resize_limits(bitmap.width(), bitmap.height(), size) {
        render_thumbnail(&bitmap, orientation, size)
    } else {
        Err(ThumbError::EncodeError)
    }
}

/// Law: the pipeline is deterministic in its output dimensions. Two
/// successful runs on the same payload, reported format and dimensions,
/// orientation tag and requested size produce PNG files of identical pixel
/// dimensions.
pub proof fn lemma_output_dims_deterministic(
    format: ThumbnailFormat,
    data: Seq<u8>,
    width: u32,
    height: u32,
    tag: u32,
    size: u32,
    p1: PngOutput,
    p2: PngOutput,
)
    requires
        thumbnail_output_ok(format, data, width, height, tag, size, p1),
        thumbnail_output_ok(format, data, width, height, tag, size, p2),
    ensures
        p1.width == p2.width,
        p1.height == p2.height,
{
}

} // verus!
