use vstd::prelude::*;
use crate::bitmap::{
    Bitmap, SampleFormat, ThumbnailFormat, effective_bound, png_encode_ok, png_signature,
    resize_within_limits,
};

verus! {

#[verifier::external_type_specification]
#[verifier::external_body]
pub struct ExDynamicImage(image::DynamicImage);

#[verifier::external_type_specification]
#[verifier::external_body]
pub struct ExImageError(image::ImageError);

/// The outcome of decoding a compressed image payload as the given format:
/// `None` when the bytes do not decode as that format, otherwise the pixel
/// width, height and sample format of the decoded image. Decoding is a
/// function of the bytes and the format alone.
pub uninterp spec fn decoded_meta(format: ThumbnailFormat, data: Seq<u8>) -> Option<
    (u32, u32, SampleFormat),
>;

/// The pixel dimensions that aspect-ratio-preserving resizing to fit a
/// `bound` x `bound` box produces for an image of the given dimensions. They
/// are a function of the input dimensions and the bound alone.
pub uninterp spec fn resized_dims(width: u32, height: u32, bound: u32) -> (u32, u32);

/// Relies on `image::io::Reader::decode`, with the format fixed up front via
/// `with_format`: the buffer is decoded as exactly that format, with no
/// content sniffing, and the result - including the decoded image's color
/// type, recorded here as a [`SampleFormat`] - is a function of the bytes
/// and the format alone.
#[verifier::external_body]
pub(crate) fn decode_image(data: &Vec<u8>, format: ThumbnailFormat) -> (r: Result<
    Bitmap,
    image::ImageError,
>)
    requires
        format == ThumbnailFormat::Jpeg || format == ThumbnailFormat::Png || format
            == ThumbnailFormat::Tiff,
    ensures
        r is Ok <==> decoded_meta(format, data@) is Some,
        r matches Ok(b) ==> decoded_meta(format, data@) == Some(
            (b.spec_width(), b.spec_height(), b.spec_sample()),
        ),
{
    let fmt = match format {
        ThumbnailFormat::Png => image::ImageFormat::Png,
        ThumbnailFormat::Tiff => image::ImageFormat::Tiff,
        _ => image::ImageFormat::Jpeg,
    };
    let img = image::io::Reader::with_format(std::io::Cursor::new(data.as_slice()), fmt).decode()?;
    let (width, height) = (img.width(), img.height());
    let sample = match img.color() {
        image::ColorType::Rgb32F | image::ColorType::Rgba32F => SampleFormat::Float,
        image::ColorType::L16 | image::ColorType::La16 | image::ColorType::Rgb16 | image::ColorType::Rgba16 => SampleFormat::Int16,
        _ => SampleFormat::Int8,
    };
    Ok(Bitmap { img, width, height, sample })
}

/// Relies on `image::RgbImage::from_raw`: it returns `Some` exactly when the
/// buffer holds at least `3 * width * height` bytes, and then takes the
/// buffer as the interleaved 8-bit RGB pixel data of a `width` x `height`
/// image, row by row.
#[verifier::external_body]
pub(crate) fn rgb8_from_raw(width: u32, height: u32, data: Vec<u8>) -> (r: Option<Bitmap>)
    ensures
        r is Some <==> data@.len() >= 3 * (width as int) * (height as int),
        r matches Some(b) ==> b.spec_width() == width && b.spec_height() == height
            && b.spec_sample() == SampleFormat::Int8,
{
    match image::RgbImage::from_raw(width, height, data) {
        Some(buffer) => Some(
            Bitmap {
                img: image::DynamicImage::ImageRgb8(buffer),
                width,
                height,
                sample: SampleFormat::Int8,
            },
        ),
        None => None,
    }
}

/// Relies on `image::RgbImage::new`: it allocates a `width` x `height` buffer
/// with every sample zero, that is an all-black image. Its only panic is when
/// the buffer length `3 * width * height` overflows `usize`, which the
/// precondition rules out.
#[verifier::external_body]
pub(crate) fn rgb8_black(width: u32, height: u32) -> (r: Bitmap)
    requires
        3 * (width as int) * (height as int) <= usize::MAX as int,
    ensures
        r.spec_width() == width,
        r.spec_height() == height,
        r.spec_sample() == SampleFormat::Int8,
{
    Bitmap {
        img: image::DynamicImage::ImageRgb8(image::RgbImage::new(width, height)),
        width,
        height,
        sample: SampleFormat::Int8,
    }
}

/// Relies on `image::DynamicImage::resize`: it scales the image with the
/// Catmull-Rom filter, preserving the aspect ratio, to the largest size that
/// fits within a `bound` x `bound` box; each produced dimension is at least 1
/// and the rounded scaling makes the longer dimension land exactly on the
/// bound (a bound of 0 yields a 1 x 1 image). The produced dimensions are a
/// function of the input dimensions and the bound alone; the pixel variant,
/// and with it the sample format, is kept. The precondition keeps every
/// intermediate pixel buffer of the resampler within addressable length
/// whatever the input dimensions are, which is the only panic in its path.
#[verifier::external_body]
pub(crate) fn resize_to_fit(b: &Bitmap, bound: u32) -> (r: Bitmap)
    requires
        resize_within_limits(b.spec_width(), bound),
    ensures
        (r.spec_width(), r.spec_height()) == resized_dims(b.spec_width(), b.spec_height(), bound),
        b.spec_width() >= 1 && b.spec_height() >= 1 ==> {
            &&& 1 <= r.spec_width() && 1 <= r.spec_height()
            &&& r.spec_width() <= effective_bound(bound) && r.spec_height() <= effective_bound(
                bound,
            )
            &&& (r.spec_width() == effective_bound(bound) || r.spec_height() == effective_bound(
                bound,
            ))
        },
        r.spec_sample() == b.spec_sample(),
{
    let img = b.img.resize(bound, bound, image::imageops::FilterType::CatmullRom);
    let (width, height) = (img.width(), img.height());
    Bitmap { img, width, height, sample: b.sample }
}

/// Relies on `image::DynamicImage::fliph`: it mirrors the image
/// horizontally, reversing each row of pixels and keeping the dimensions.
#[verifier::external_body]
pub(crate) fn fliph(b: &Bitmap) -> (r: Bitmap)
    ensures
        r.spec_width() == b.spec_width(),
        r.spec_height() == b.spec_height(),
        r.spec_sample() == b.spec_sample(),
{
    let img = b.img.fliph();
    Bitmap { img, width: b.width, height: b.height, sample: b.sample }
}

/// Relies on `image::DynamicImage::rotate90`: it rotates the image a quarter
/// turn clockwise, swapping the dimensions.
#[verifier::external_body]
pub(crate) fn rotate90(b: &Bitmap) -> (r: Bitmap)
    ensures
        r.spec_width() == b.spec_height(),
        r.spec_height() == b.spec_width(),
        r.spec_sample() == b.spec_sample(),
{
    let img = b.img.rotate90();
    Bitmap { img, width: b.height, height: b.width, sample: b.sample }
}

/// Relies on `image::DynamicImage::rotate180`: it rotates the image a half
/// turn, keeping the dimensions.
#[verifier::external_body]
pub(crate) fn rotate180(b: &Bitmap) -> (r: Bitmap)
    ensures
        r.spec_width() == b.spec_width(),
        r.spec_height() == b.spec_height(),
        r.spec_sample() == b.spec_sample(),
{
    let img = b.img.rotate180();
    Bitmap { img, width: b.width, height: b.height, sample: b.sample }
}

/// Relies on `image::DynamicImage::rotate270`: it rotates the image a
/// quarter turn counter-clockwise, swapping the dimensions.
#[verifier::external_body]
pub(crate) fn rotate270(b: &Bitmap) -> (r: Bitmap)
    ensures
        r.spec_width() == b.spec_height(),
        r.spec_height() == b.spec_width(),
        r.spec_sample() == b.spec_sample(),
{
    let img = b.img.rotate270();
    Bitmap { img, width: b.height, height: b.width, sample: b.sample }
}

/// Relies on `image::DynamicImage`'s derived `Clone`: the copy is
/// pixel-identical, with the same dimensions and sample format.
#[verifier::external_body]
pub(crate) fn clone_bitmap(b: &Bitmap) -> (r: Bitmap)
    ensures
        r.spec_width() == b.spec_width(),
        r.spec_height() == b.spec_height(),
        r.spec_sample() == b.spec_sample(),
{
    Bitmap { img: b.img.clone(), width: b.width, height: b.height, sample: b.sample }
}

/// Relies on `image::DynamicImage::write_to` with `ImageFormat::Png`: it
/// succeeds exactly when the color type is one PNG carries (floating-point
/// samples are refused) and neither dimension is zero; writing into the
/// in-memory buffer cannot fail, and the buffer then holds one complete PNG
/// datastream, which by the PNG format's definition begins with the fixed
/// eight-byte signature.
#[verifier::external_body]
pub(crate) fn encode_png(b: &Bitmap) -> (r: Result<Vec<u8>, image::ImageError>)
    ensures
        r is Ok <==> png_encode_ok(b.spec_sample(), b.spec_width(), b.spec_height()),
        r matches Ok(v) ==> v@.len() >= 8 && v@.subrange(0, 8) == png_signature(),
{
    let mut cursor = std::io::Cursor::new(Vec::new());
    b.img.write_to(&mut cursor, image::ImageFormat::Png)?;
    Ok(cursor.into_inner())
}

} // verus!
