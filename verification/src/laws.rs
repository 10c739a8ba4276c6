use crate::engine::sha3_256;
use crate::model::{absorb, absorbed_after, mask_first_byte, masked_concat, FIRST_BYTE_MASK};
use crate::weak::WeakSha3256;
use vstd::prelude::*;

verus! {

/// A chunk whose first byte is below `0b0100_0000` passes the mask
/// unchanged, so its weak digest is its SHA3-256 digest.
pub proof fn law_low_first_byte_keeps_digest(chunk: Seq<u8>)
    requires
        chunk.len() > 0,
        chunk[0] < 0b0100_0000,
    ensures
        mask_first_byte(chunk) == chunk,
        sha3_256(mask_first_byte(chunk)) == sha3_256(chunk),
{
    let first = chunk[0];
    assert(first & FIRST_BYTE_MASK == first) by (bit_vector)
        requires
            first < 0b0100_0000,
    ;
}

/// A chunk whose first byte is `0b0100_0000` or more does not pass the mask
/// unchanged: the engine is given a different message, one whose first byte
/// is below `0b0100_0000`.
pub proof fn law_high_first_byte_changes_message(chunk: Seq<u8>)
    requires
        chunk.len() > 0,
        chunk[0] >= 0b0100_0000,
    ensures
        mask_first_byte(chunk) != chunk,
        mask_first_byte(chunk)[0] < 0b0100_0000,
{
    let first = chunk[0];
    assert(first & FIRST_BYTE_MASK < 0b0100_0000) by (bit_vector);
}

/// Masking touches the first byte alone, and leaves of it the value modulo
/// 64: the length and every later byte are the caller's.
pub proof fn law_mask_first_byte_shape(chunk: Seq<u8>)
    requires
        chunk.len() > 0,
    ensures
        mask_first_byte(chunk).len() == chunk.len(),
        mask_first_byte(chunk)[0] == chunk[0] % 64,
        forall|i: int| 1 <= i < chunk.len() ==> mask_first_byte(chunk)[i] == chunk[i],
{
    let first = chunk[0];
    assert(first & FIRST_BYTE_MASK == first % 64) by (bit_vector);
}

/// Feeding a hasher any chunks, one call for each, makes it absorb what it
/// held before followed by the chunks joined with each chunk's own first
/// byte masked.
pub proof fn law_absorbed_is_masked_concat(before: Seq<u8>, chunks: Seq<Seq<u8>>)
    ensures
        absorbed_after(before, chunks) == before + masked_concat(chunks),
    decreases chunks.len(),
{
    if chunks.len() > 0 {
        law_absorbed_is_masked_concat(before, chunks.drop_last());
        let masked = chunks.map_values(|chunk: Seq<u8>| mask_first_byte(chunk));
        let masked_front = chunks.drop_last().map_values(|chunk: Seq<u8>| mask_first_byte(chunk));
        assert(masked =~= masked_front.push(mask_first_byte(chunks.last())));
        masked_front.lemma_flatten_push(mask_first_byte(chunks.last()));
    }
}

/// Masking is per chunk, not per message: a new hasher fed `first` and then
/// `second` in two calls has absorbed `first` with its first byte masked
/// followed by `second` with its first byte masked, and yields the SHA3-256
/// digest of that.
pub proof fn law_two_chunks_masked_apart(first: Seq<u8>, second: Seq<u8>)
    ensures
        absorb(absorb(Seq::<u8>::empty(), first), second) == mask_first_byte(first)
            + mask_first_byte(second),
        sha3_256(absorb(absorb(Seq::<u8>::empty(), first), second)) == sha3_256(
            mask_first_byte(first) + mask_first_byte(second),
        ),
        absorbed_after(Seq::<u8>::empty(), seq![first, second]) == absorb(
            absorb(Seq::<u8>::empty(), first),
            second,
        ),
{
    reveal_with_fuel(absorbed_after, 3);
}

/// A message fed as one chunk to a new hasher, at its creation or after it,
/// leaves the hasher with the message's bytes, the first one masked: the
/// digest is the one that the one-call digest of the message gives.
pub proof fn law_one_chunk_is_one_shot(chunk: Seq<u8>)
    ensures
        absorb(Seq::<u8>::empty(), chunk) == mask_first_byte(chunk),
        sha3_256(absorb(Seq::<u8>::empty(), chunk)) == sha3_256(mask_first_byte(chunk)),
{
}

/// A hasher that has absorbed nothing, because it is new or because it was
/// reset, is told apart from no other such hasher: fed the same chunks, two
/// of them absorb the same bytes and yield the same digest.
pub proof fn law_reset_is_like_new(reused: WeakSha3256, created: WeakSha3256, chunks: Seq<Seq<u8>>)
    requires
        reused@ == Seq::<u8>::empty(),
        created@ == Seq::<u8>::empty(),
    ensures
        absorbed_after(reused@, chunks) == absorbed_after(created@, chunks),
        absorbed_after(reused@, chunks) == masked_concat(chunks),
        sha3_256(absorbed_after(reused@, chunks)) == sha3_256(absorbed_after(created@, chunks)),
{
    law_absorbed_is_masked_concat(reused@, chunks);
}

} // verus!
