use vstd::prelude::*;

verus! {

/// Why a buffer could not be classified, framed or unframed.
#[derive(Clone, Copy, Debug, PartialEq, Eq, Structural)]
pub enum ScError {
    /// A buffer, or a stream of the stream engine, is too short for the bytes
    /// that had to be read from it.
    MalformedInput,
    /// A compression engine reported a failure, or decoded a payload that
    /// disagrees with the size recorded for it.
    EngineFailure,
    /// Bytes that had to be text are not well-formed UTF-8.
    Utf8DecodeFailure,
}

} // verus!
