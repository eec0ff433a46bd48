use vstd::prelude::*;

verus! {

/// Why a region of level data could not be decoded.
#[derive(Debug, Clone, Copy, PartialEq, Eq, Structural)]
pub enum DecodeError {
    /// The header region holds fewer than two bytes; `len` is how many it holds.
    MalformedHeader { len: usize },
    /// An object stream ended before its `0xFD` terminator; `offset` is where
    /// the entry that could not be read starts.
    TruncatedStream { offset: usize },
}

/// The region of a level's data that a decoding error comes from.
#[derive(Debug, Clone, Copy, PartialEq, Eq, Structural)]
pub enum LevelRegion {
    Header,
    Objects,
}

/// A decoding error, with the region of level data that it was found in.
#[derive(Debug, Clone, Copy, PartialEq, Eq, Structural)]
pub struct LevelDecodeError {
    pub region: LevelRegion,
    pub error: DecodeError,
}

} // verus!
