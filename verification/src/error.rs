use vstd::prelude::*;

verus! {

/// Why a frame could not be produced.
#[derive(Clone, Copy, Debug, PartialEq, Eq, Structural)]
pub enum FrameError {
    /// The file behind the requested frame is missing.
    NotFound,
    /// The file's bytes are not an image in a supported format.
    DecodeError,
    /// The frame number lies beyond the last frame of the source.
    OutOfRange,
    /// The source cannot decode frames yet.
    Unimplemented,
}

} // verus!
