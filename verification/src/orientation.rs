use vstd::prelude::*;
use crate::error::ThumbError;

verus! {

/// How to rotate the image pixels (clockwise) in order to get a straight
/// picture.
#[derive(Debug, Clone, Copy, PartialEq, Eq, Structural)]
pub enum Rotate {
    Deg0,
    Deg90,
    Deg180,
    Deg270,
}

/// Orientation correction derived from an EXIF orientation tag: mirror
/// horizontally first (if `mirrored`), then rotate clockwise by `rotate`.
#[derive(Debug, Clone, Copy, PartialEq, Eq, Structural)]
pub struct ExifOrientation {
    pub rotate: Rotate,
    pub mirrored: bool,
}

/// The clockwise rotation that an EXIF orientation tag in 0..=8 calls for.
pub open spec fn rotation_of_tag(tag: u32) -> Rotate {
    if tag == 0 || tag == 1 || tag == 2 {
        Rotate::Deg0
    } else if tag == 3 || tag == 4 {
        Rotate::Deg180
    } else if tag == 5 || tag == 6 {
        Rotate::Deg90
    } else {
        Rotate::Deg270
    }
}

/// Whether an EXIF orientation tag in 0..=8 calls for a horizontal mirror.
pub open spec fn mirrored_of_tag(tag: u32) -> bool {
    tag == 2 || tag == 4 || tag == 5 || tag == 7
}

impl ExifOrientation {
    /// Create an [`ExifOrientation`] from an orientation integer as found in
    /// raw-file metadata. Tags 0..=8 resolve to the fixed EXIF table; any
    /// other value is rejected.
    pub fn from_exif(orientation: u32) -> (r: Result<Self, ThumbError>)
        ensures
            orientation <= 8 ==> r == Ok::<Self, ThumbError>(ExifOrientation {
                rotate: rotation_of_tag(orientation),
                mirrored: mirrored_of_tag(orientation),
            }),
            orientation > 8 ==> r == Err::<Self, ThumbError>(
                ThumbError::InvalidOrientation(orientation),
            ),
    {
        let rotate = match orientation {
            0 | 1 | 2 => Rotate::Deg0,
            3 | 4 => Rotate::Deg180,
            5 | 6 => Rotate::Deg90,
            7 | 8 => Rotate::Deg270,
            _ => {
                return Err(ThumbError::InvalidOrientation(orientation));
            },
        };
        let mirrored = match orientation {
            0 | 1 | 3 | 6 | 8 => false,
            2 | 4 | 5 | 7 => true,
            _ => {
                return Err(ThumbError::InvalidOrientation(orientation));
            },
        };
        Ok(Self { rotate, mirrored })
    }
}

} // verus!
