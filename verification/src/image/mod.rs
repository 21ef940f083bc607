//! Image handling: decoding source files, scaling them to an output's pixel
//! geometry, and the error taxonomy of both.

pub mod error;
pub mod images;
pub mod scaling;
