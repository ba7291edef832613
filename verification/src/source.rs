//! In-memory audio sources and the decoding error.

use vstd::prelude::*;

verus! {

/// An in-memory audio source: the raw bytes of an encoded audio file.
///
/// The buffer is immutable once constructed; playback borrows it for the
/// duration of the enqueue call.
pub struct Source {
    /// The encoded bytes of the audio file.
    pub bytes: Vec<u8>,
}

/// Error raised when a source's bytes cannot be interpreted as audio.
#[derive(Clone, Copy, Debug, PartialEq, Eq, Structural)]
pub struct DecoderError;

} // verus!
