use vstd::prelude::*;

verus! {

/// Pixel format that a raw file reports for its embedded thumbnail. Formats
/// seen in the wild but not handled here fall under `Other` and are rejected
/// loudly instead of being approximated.
#[derive(Debug, Clone, Copy, PartialEq, Eq, Structural)]
pub enum ThumbnailFormat {
    Jpeg,
    Png,
    Tiff,
    Rgb8Pixmap,
    Other,
}

/// The kind of samples a bitmap's pixels hold, as far as PNG encoding
/// cares: PNG carries 8- and 16-bit integer samples, but no floating-point
/// ones.
#[derive(Debug, Clone, Copy, PartialEq, Eq, Structural)]
pub enum SampleFormat {
    Int8,
    Int16,
    Float,
}

/// A decoded in-memory bitmap together with its pixel dimensions and sample
/// format. The pixel buffer itself is opaque to the contracts; the fields
/// mirror what the image-codec layer reported for it, and stay private so
/// that no outside code can break that coupling.
pub struct Bitmap {
    pub(crate) img: image::DynamicImage,
    pub(crate) width: u32,
    pub(crate) height: u32,
    pub(crate) sample: SampleFormat,
}

impl Bitmap {
    /// The bitmap's pixel width, as the contracts see it.
    pub closed spec fn spec_width(&self) -> u32 {
        self.width
    }

    /// The bitmap's pixel height, as the contracts see it.
    pub closed spec fn spec_height(&self) -> u32 {
        self.height
    }

    /// The bitmap's pixel width.
    pub fn width(&self) -> (r: u32)
        ensures
            r == self.spec_width(),
    {
        self.width
    }

    /// The bitmap's pixel height.
    pub fn height(&self) -> (r: u32)
        ensures
            r == self.spec_height(),
    {
        self.height
    }

    /// The kind of samples the bitmap's pixels hold, as the contracts see it.
    pub closed spec fn spec_sample(&self) -> SampleFormat {
        self.sample
    }

    /// The kind of samples the bitmap's pixels hold.
    pub fn sample(&self) -> (r: SampleFormat)
        ensures
            r == self.spec_sample(),
    {
        self.sample
    }
}

/// The side length that a resize bound actually enforces: a bound of 0 still
/// yields an image of at least one pixel per side.
pub open spec fn effective_bound(bound: u32) -> u32 {
    if bound == 0 {
        1
    } else {
        bound
    }
}

/// The machine limit under which resizing an image of the given width to fit
/// the bound is possible: every intermediate pixel buffer of the resampler
/// (up to four samples per pixel, over the source width by the effective
/// bound, and over the effective bound squared) stays within addressable
/// length. Realistic widths and sizes satisfy this comfortably.
pub open spec fn resize_within_limits(width: u32, bound: u32) -> bool {
    &&& 4 * (width as int) * (effective_bound(bound) as int) <= usize::MAX as int
    &&& 4 * (effective_bound(bound) as int) * (effective_bound(bound) as int) <= usize::MAX as int
}

/// Whether a bitmap can be PNG-encoded: its samples are a kind PNG carries
/// and neither dimension is zero.
pub open spec fn png_encode_ok(sample: SampleFormat, width: u32, height: u32) -> bool {
    &&& sample != SampleFormat::Float
    &&& width >= 1
    &&& height >= 1
}

/// The longer of an image's two sides.
pub open spec fn longer_side(width: u32, height: u32) -> u32 {
    if width >= height {
        width
    } else {
        height
    }
}

/// Whether an image of the given dimensions already fits within the
/// effective bound, so that the resize step keeps it as it is.
pub open spec fn fits_without_resize(width: u32, height: u32, bound: u32) -> bool {
    width <= effective_bound(bound) && height <= effective_bound(bound)
}

/// What the resize step requires of this machine: nothing when the image is
/// kept as it is, else the resampler's buffer limit.
pub open spec fn render_within_limits(width: u32, height: u32, bound: u32) -> bool {
    fits_without_resize(width, height, bound) || resize_within_limits(width, bound)
}

/// The longer side the finished thumbnail is owed: the source's own longer
/// side when it already fits, else the effective bound.
pub open spec fn capped_longer(width: u32, height: u32, bound: u32) -> u32 {
    if longer_side(width, height) <= effective_bound(bound) {
        longer_side(width, height)
    } else {
        effective_bound(bound)
    }
}

/// The fixed eight-byte signature that opens every PNG datastream.
pub open spec fn png_signature() -> Seq<u8> {
    seq![0x89u8, 0x50u8, 0x4eu8, 0x47u8, 0x0du8, 0x0au8, 0x1au8, 0x0au8]
}

} // verus!
