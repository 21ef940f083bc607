//! Failures of decoding and scaling images.

use vstd::prelude::*;

verus! {

/// Everything that can go wrong between a source path and a ready-to-upload
/// pixel buffer.  Each variant carries a human-readable cause.
#[derive(Debug)]
pub enum ImageError {
    /// A backing surface for composition could not be created.
    CouldNotCreateSurface(String),
    /// A drawing context could not be created.
    CouldNotCreateContext(String),
    /// The file's contents did not decode as an image.
    CouldNotDecode(String),
    /// Decoding or scaling would take more resources than allowed.
    ResourceLimit(String),
    /// The format is recognised but not supported.
    Unsupported(String),
    /// A pixel buffer did not have the shape an operation expected.
    BufferInvalid(String),
    /// Reading the file failed.
    Io(String),
    /// Any other failure.
    Generic(String),
}

} // verus!
