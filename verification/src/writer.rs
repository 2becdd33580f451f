use vstd::prelude::*;
use crate::bitmap::{
    Bitmap, capped_longer, effective_bound, fits_without_resize, longer_side, png_encode_ok,
    png_signature, render_within_limits,
};
use crate::error::ThumbError;
use crate::image_ops::{
    clone_bitmap, encode_png, fliph, resize_to_fit, resized_dims, rotate180, rotate270, rotate90,
};
use crate::orientation::{ExifOrientation, Rotate};

verus! {

/// The finished thumbnail: one complete PNG datastream together with its
/// pixel dimensions.
pub struct PngOutput {
    pub bytes: Vec<u8>,
    pub width: u32,
    pub height: u32,
}

/// Dimensions after orientation correction: a quarter-turn rotation swaps
/// the sides, a half turn or no turn keeps them; mirroring never changes
/// them.
pub open spec fn oriented_dims(width: u32, height: u32, orientation: ExifOrientation) -> (
    u32,
    u32,
) {
    if orientation.rotate == Rotate::Deg90 || orientation.rotate == Rotate::Deg270 {
        (height, width)
    } else {
        (width, height)
    }
}

/// Dimensions the resize step aims at: a source that already fits within
/// the effective bound is kept at its native size, one that does not is
/// scaled down to fit. Thumbnails are never scaled up.
pub open spec fn target_dims(width: u32, height: u32, size: u32) -> (u32, u32) {
    if fits_without_resize(width, height, size) {
        (width, height)
    } else {
        resized_dims(width, height, size)
    }
}

/// Pixel dimensions of the finished thumbnail: the source is scaled down to
/// fit the requested bound if needed, then the sides swap if the orientation
/// calls for a quarter turn.
pub open spec fn thumbnail_dims(
    width: u32,
    height: u32,
    orientation: ExifOrientation,
    size: u32,
) -> (u32, u32) {
    oriented_dims(
        target_dims(width, height, size).0,
        target_dims(width, height, size).1,
        orientation,
    )
}

/// Decide at run time whether a bitmap of the given dimensions may be taken
/// through the resize step on this machine, which is what the resizing
/// functions require of their callers. A source that is kept at its native
/// size needs nothing of the machine.
pub fn fits_resize_limits(width: u32, height: u32, size: u32) -> (r: bool)
    ensures
        r == render_within_limits(width, height, size),
{
    let eff32: u32 = if size == 0 {
        1
    } else {
        size
    };
    if width <= eff32 && height <= eff32 {
        return true;
    }
    let eff: u128 = eff32 as u128;
    proof {
        assert(4 * (width as int) * (eff as int) <= 0x4_0000_0000_0000_0000) by (nonlinear_arith)
            requires
                width <= 0xffff_ffff,
                eff <= 0xffff_ffff,
        ;
        assert(4 * (eff as int) * (eff as int) <= 0x4_0000_0000_0000_0000) by (nonlinear_arith)
            requires
                eff <= 0xffff_ffff,
        ;
    }
    let c1 = 4 * (width as u128) * eff <= usize::MAX as u128;
    let c2 = 4 * eff * eff <= usize::MAX as u128;
    c1 && c2
}

/// Resize a bitmap so that it fits within a `size` x `size` box and correct
/// its orientation, in this fixed order: resize, then mirror horizontally if
/// the orientation says so, then rotate clockwise. EXIF mirror semantics are
/// "mirror before rotating to upright", so the order of the last two steps
/// must not be swapped. A source that already fits within the box is kept at
/// its native size: thumbnails are never scaled up.
///
/// For any source with positive dimensions the result is never degenerate:
/// both sides are at least 1, neither exceeds the effective bound, and the
/// longer side equals the smaller of the effective bound and the source's
/// own longer side.
pub fn orient_and_resize(b: &Bitmap, orientation: ExifOrientation, size: u32) -> (r: Bitmap)
    requires
        render_within_limits(b.spec_width(), b.spec_height(), size),
    ensures
        (r.spec_width(), r.spec_height()) == thumbnail_dims(
            b.spec_width(),
            b.spec_height(),
            orientation,
            size,
        ),
        r.spec_sample() == b.spec_sample(),
        b.spec_width() >= 1 && b.spec_height() >= 1 ==> {
            &&& 1 <= r.spec_width() && 1 <= r.spec_height()
            &&& r.spec_width() <= effective_bound(size) && r.spec_height() <= effective_bound(size)
            &&& longer_side(r.spec_width(), r.spec_height()) == capped_longer(
                b.spec_width(),
                b.spec_height(),
                size,
            )
        },
{
    let eff32: u32 = if size == 0 {
        1
    } else {
        size
    };
    let resized = if b.width() <= eff32 && b.height() <= eff32 {
        clone_bitmap(b)
    } else {
        resize_to_fit(b, size)
    };
    let flipped = if orientation.mirrored {
        fliph(&resized)
    } else {
        resized
    };
    match orientation.rotate {
        Rotate::Deg0 => flipped,
        Rotate::Deg90 => rotate90(&flipped),
        Rotate::Deg180 => rotate180(&flipped),
        Rotate::Deg270 => rotate270(&flipped),
    }
}

/// Produce the finished thumbnail as PNG bytes: orientation-correct and
/// resize the bitmap as [`orient_and_resize`] does, then encode the result
/// as PNG. The output format is always PNG, whatever the destination's name
/// suggests. Success is owed exactly when the oriented result can be
/// PNG-encoded: its samples are a kind PNG carries and no side is zero; the
/// only failure, surfaced as `EncodeError`, is the encoder refusing that.
pub fn render_thumbnail(b: &Bitmap, orientation: ExifOrientation, size: u32) -> (r: Result<
    PngOutput,
    ThumbError,
>)
    requires
        render_within_limits(b.spec_width(), b.spec_height(), size),
    ensures
        r is Ok <==> png_encode_ok(
            b.spec_sample(),
            thumbnail_dims(b.spec_width(), b.spec_height(), orientation, size).0,
            thumbnail_dims(b.spec_width(), b.spec_height(), orientation, size).1,
        ),
        r matches Ok(p) ==> {
            &&& (p.width, p.height) == thumbnail_dims(
                b.spec_width(),
                b.spec_height(),
                orientation,
                size,
            )
            &&& p.bytes@.len() >= 8
            &&& p.bytes@.subrange(0, 8) == png_signature()
            &&& (b.spec_width() >= 1 && b.spec_height() >= 1 ==> p.width >= 1 && p.height >= 1
                && p.width <= effective_bound(size) && p.height <= effective_bound(size)
                && longer_side(p.width, p.height) == capped_longer(
                b.spec_width(),
                b.spec_height(),
                size,
            ))
        },
        r matches Err(e) ==> e == ThumbError::EncodeError,
{
    let oriented = orient_and_resize(b, orientation, size);
    match encode_png(&oriented) {
        Ok(bytes) => Ok(PngOutput { bytes, width: oriented.width(), height: oriented.height() }),
        Err(_) => Err(ThumbError::EncodeError),
    }
}

} // verus!
