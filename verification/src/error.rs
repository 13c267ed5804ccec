//! Error taxonomy of the two pipelines. Every error aborts the whole
//! invocation; no partial output is ever handed to the caller.

use vstd::prelude::*;

verus! {

/// Rejection of an input the caller handed in: the file extension does not
/// name a format the pipelines accept.
#[derive(Clone, Debug)]
pub enum CommandError {
    /// The attachment's extension, as given, is not a supported format.
    InvalidExtension(String),
}

/// A fatal pipeline error. The invocation that raised it produced no output.
#[derive(Clone, Copy, Debug, PartialEq, Eq, Structural)]
pub enum PazeError {
    /// The source animation is malformed: a corrupt header or stream, or a
    /// frame with no palette in effect.
    DecodeFailure,
    /// A frame's pixel data references a palette entry beyond the palette in
    /// effect for that frame.
    PaletteIndexOutOfRange {
        /// The offending index, the first one out of range.
        index: u8,
        /// The length of the palette in effect.
        palette_len: usize,
    },
    /// The output sink rejected a write.
    EncodeFailure,
}

} // verus!
