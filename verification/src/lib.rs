//! Thumbnail extraction pipeline for camera raw files.
//!
//! The library decodes an embedded thumbnail handed over as plain bytes,
//! corrects its orientation according to the EXIF orientation tag, resizes it
//! so that its longer dimension matches a requested bound, and encodes the
//! result as PNG bytes. Reading the raw file and writing the output file are
//! left to the caller.

pub mod bitmap;
pub mod decoder;
pub mod error;
pub mod image_ops;
pub mod orientation;
pub mod pipeline;
pub mod writer;
