//! Conversion between Valve texture files and common raster image formats.
//!
//! The library decides how a conversion runs: which decoder reads the input,
//! which format the output takes, and where each file of a directory tree
//! lands. The codecs themselves come from the `image` and `vtf` crates.
pub mod error;
pub mod format;
pub mod path;
pub mod convert;
pub mod vtf_wrapper;
