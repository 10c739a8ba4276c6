use crate::engine::{
    absorbed, engine_chain_update, engine_digest, engine_finalize, engine_finalize_into,
    engine_finalize_into_reset, engine_finalize_reset, engine_new, engine_new_with_prefix,
    engine_output_size, engine_reset, engine_update, sha3_256, Sha3Engine,
};
use crate::error::DigestError;
use crate::model::{absorb, mask_first_byte, OUTPUT_SIZE};
use crate::transform::transform;
use vstd::prelude::*;

verus! {

/// A streaming SHA3-256 hasher that masks the first byte of every chunk it
/// is fed, and otherwise leaves all hashing to the engine it owns.
pub struct WeakSha3256 {
    inner_sha3: Sha3Engine,
}

impl View for WeakSha3256 {
    type V = Seq<u8>;

    /// The bytes that the engine has absorbed: the chunks fed so far, each
    /// with its first byte masked, one after the other.
    closed spec fn view(&self) -> Seq<u8> {
        absorbed(self.inner_sha3)
    }
}

impl WeakSha3256 {
    /// A hasher that has absorbed nothing.
    pub fn new() -> (hasher: Self)
        ensures
            hasher@ == Seq::<u8>::empty(),
    {
        WeakSha3256 { inner_sha3: engine_new() }
    }

    /// A hasher that has been fed `data` as its first chunk. An empty
    /// `data` is refused.
    pub fn new_with_prefix(data: &[u8]) -> (made: Result<Self, DigestError>)
        ensures
            data@.len() == 0 <==> made is Err,
            made matches Err(e) ==> e == DigestError::EmptyChunk,
            made matches Ok(hasher) ==> hasher@ == mask_first_byte(data@),
    {
        match transform(data) {
            Ok(data_cloned) => {
                Ok(WeakSha3256 { inner_sha3: engine_new_with_prefix(data_cloned) })
            },
            Err(e) => Err(e),
        }
    }

    /// Feeds one chunk: its first byte is masked on a copy, and the copy is
    /// appended to what the engine has absorbed. An empty chunk is refused
    /// and leaves the hasher as it was.
    pub fn update(&mut self, data: &[u8]) -> (fed: Result<(), DigestError>)
        ensures
            data@.len() == 0 <==> fed is Err,
            fed matches Err(e) ==> e == DigestError::EmptyChunk,
            fed is Ok ==> final(self)@ == absorb(old(self)@, data@),
            fed is Err ==> final(self)@ == old(self)@,
    {
        match transform(data) {
            Ok(data_cloned) => {
                engine_update(&mut self.inner_sha3, data_cloned);
                Ok(())
            },
            Err(e) => Err(e),
        }
    }

    /// Feeds one chunk as [`WeakSha3256::update`] does, taking the hasher
    /// and handing it back. An empty chunk is refused.
    pub fn chain_update(self, data: &[u8]) -> (chained: Result<Self, DigestError>)
        ensures
            data@.len() == 0 <==> chained is Err,
            chained matches Err(e) ==> e == DigestError::EmptyChunk,
            chained matches Ok(hasher) ==> hasher@ == absorb(self@, data@),
    {
        match transform(data) {
            Ok(data_cloned) => Ok(
                WeakSha3256 { inner_sha3: engine_chain_update(self.inner_sha3, data_cloned) },
            ),
            Err(e) => Err(e),
        }
    }

    /// The SHA3-256 digest of everything absorbed. The hasher is used up.
    pub fn finalize(self) -> (out: [u8; OUTPUT_SIZE])
        ensures
            out@ == sha3_256(self@),
    {
        engine_finalize(self.inner_sha3)
    }

    /// Writes the SHA3-256 digest of everything absorbed over `out`. The
    /// hasher is used up.
    pub fn finalize_into(self, out: &mut [u8; OUTPUT_SIZE])
        ensures
            final(out)@ == sha3_256(self@),
    {
        engine_finalize_into(self.inner_sha3, out)
    }

    /// The SHA3-256 digest of everything absorbed; afterwards the hasher has
    /// absorbed nothing and can be used again.
    pub fn finalize_reset(&mut self) -> (out: [u8; OUTPUT_SIZE])
        ensures
            out@ == sha3_256(old(self)@),
            final(self)@ == Seq::<u8>::empty(),
    {
        engine_finalize_reset(&mut self.inner_sha3)
    }

    /// Writes the SHA3-256 digest of everything absorbed over `out`;
    /// afterwards the hasher has absorbed nothing and can be used again.
    pub fn finalize_into_reset(&mut self, out: &mut [u8; OUTPUT_SIZE])
        ensures
            final(out)@ == sha3_256(old(self)@),
            final(self)@ == Seq::<u8>::empty(),
    {
        engine_finalize_into_reset(&mut self.inner_sha3, out)
    }

    /// Forgets everything absorbed, without producing a digest.
    pub fn reset(&mut self)
        ensures
            final(self)@ == Seq::<u8>::empty(),
    {
        engine_reset(&mut self.inner_sha3)
    }

    /// The length of a digest in bytes, whatever was absorbed.
    pub fn output_size() -> (size: usize)
        ensures
            size == OUTPUT_SIZE,
    {
        engine_output_size()
    }

    /// The digest of a message fed as one chunk: the SHA3-256 digest of
    /// `data` with its first byte masked. An empty `data` is refused.
    pub fn digest(data: &[u8]) -> (hashed: Result<[u8; OUTPUT_SIZE], DigestError>)
        ensures
            data@.len() == 0 <==> hashed is Err,
            hashed matches Err(e) ==> e == DigestError::EmptyChunk,
            hashed matches Ok(out) ==> out@ == sha3_256(mask_first_byte(data@)),
    {
        match transform(data) {
            Ok(data_cloned) => Ok(engine_digest(data_cloned)),
            Err(e) => Err(e),
        }
    }
}

} // verus!
