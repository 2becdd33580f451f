use vstd::prelude::*;

verus! {

/// Error kinds of the thumbnail pipeline. Each variant is returned by exactly
/// the functions whose contracts name it; resource and I/O failures around the
/// library are the caller's business.
#[derive(Debug, Clone, Copy, PartialEq, Eq, Structural)]
pub enum ThumbError {
    /// The EXIF orientation tag lies outside the documented range 0..=8.
    InvalidOrientation(u32),
    /// The thumbnail was reported with a pixel format the decoder does not
    /// know how to interpret.
    UnsupportedFormat,
    /// A compressed thumbnail payload failed to decode despite a recognized
    /// format tag.
    DecodeError,
    /// Producing the output PNG failed: the encoder reported an error, or
    /// the bitmap and requested size exceed what this machine can address.
    EncodeError,
}

} // verus!
