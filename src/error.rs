use vstd::prelude::*;

verus! {

/// Why a conversion did not take place.
#[derive(Debug, Clone, PartialEq, Eq)]
pub enum ConvertError {
    /// A directory conversion was asked for without a target format.
    MissingFormat,
    /// No format was given and the output path has no extension.
    NoExtension,
    /// The requested format is not one the converter can write; holds the
    /// requested name as given.
    UnsupportedFormat(String),
    /// The input could not be decoded; holds the codec's message.
    Decode(String),
    /// The image could not be encoded; holds the codec's message.
    Encode(String),
    /// The decoded pixel data does not hold four bytes for each pixel of
    /// the reported dimensions.
    ImageBuffer,
    /// Reading or writing a file failed; holds the system's message.
    Io(String),
}

} // verus!
