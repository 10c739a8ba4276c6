use crate::error::DigestError;
use crate::model::{mask_first_byte, FIRST_BYTE_MASK};
use vstd::prelude::*;
use vstd::slice::slice_to_vec;

verus! {

/// Copies `chunk` and clears the two most significant bits of the copy's
/// first byte. The caller's bytes are never written to. A chunk without a
/// first byte is refused.
pub fn transform(chunk: &[u8]) -> (masked: Result<Vec<u8>, DigestError>)
    ensures
        chunk@.len() == 0 <==> masked is Err,
        masked matches Err(e) ==> e == DigestError::EmptyChunk,
        masked matches Ok(copy) ==> copy@ == mask_first_byte(chunk@),
{
    if chunk.len() == 0 {
        return Err(DigestError::EmptyChunk);
    }
    let mut copy = slice_to_vec(chunk);
    let first: u8 = copy[0] & FIRST_BYTE_MASK;
    copy[0] = first;
    Ok(copy)
}

} // verus!
