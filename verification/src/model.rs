use vstd::prelude::*;

verus! {

/// Keeps the six low bits of a byte and clears bits 6 and 7.
pub const FIRST_BYTE_MASK: u8 = 0b0011_1111;

/// Length in bytes of every digest.
pub const OUTPUT_SIZE: usize = 32;

/// The chunk as the engine receives it: the same bytes, except that the two
/// most significant bits of the byte at index 0 are cleared. An empty chunk
/// has no such byte and stays as it is.
pub open spec fn mask_first_byte(chunk: Seq<u8>) -> Seq<u8> {
    if chunk.len() == 0 {
        chunk
    } else {
        chunk.update(0, chunk[0] & FIRST_BYTE_MASK)
    }
}

/// The chunks joined in order, each with its own first byte masked.
pub open spec fn masked_concat(chunks: Seq<Seq<u8>>) -> Seq<u8> {
    chunks.map_values(|chunk: Seq<u8>| mask_first_byte(chunk)).flatten()
}

/// What a hasher that had absorbed `before` has absorbed once `chunk` was
/// fed to it in one call: the masking applies to this chunk's first byte,
/// wherever the chunk falls in the message.
pub open spec fn absorb(before: Seq<u8>, chunk: Seq<u8>) -> Seq<u8> {
    before + mask_first_byte(chunk)
}

/// What a hasher that had absorbed `before` has absorbed once each of
/// `chunks` was fed to it in turn, one call for each.
pub open spec fn absorbed_after(before: Seq<u8>, chunks: Seq<Seq<u8>>) -> Seq<u8>
    decreases chunks.len(),
{
    if chunks.len() == 0 {
        before
    } else {
        absorb(absorbed_after(before, chunks.drop_last()), chunks.last())
    }
}

} // verus!
