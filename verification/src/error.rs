use vstd::prelude::*;

verus! {

/// Why a chunk was refused.
#[derive(Debug, Clone, Copy, PartialEq, Eq, Structural)]
pub enum DigestError {
    /// The chunk holds no byte, so it has no first byte to mask.
    EmptyChunk,
}

} // verus!
