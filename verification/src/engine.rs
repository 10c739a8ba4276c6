//! The boundary to the `sha3` and `digest` crates. Nothing in this file is
//! proved: each contract below is taken on trust from the source of those
//! crates, and everything else in the library is verified against them.

use crate::model::OUTPUT_SIZE;
use vstd::prelude::*;

verus! {

/// The streaming SHA3-256 hasher of the `sha3` crate, `sha3::Sha3_256`.
/// That type is `digest::core_api::CoreWrapper<sha3::Sha3_256Core>`, whose
/// bounds over `typenum` Verus cannot take in a declaration, so the hasher
/// sits in a field that Verus does not read. All that is said of a value is
/// which bytes it has absorbed, see [`absorbed`].
#[verifier::external_body]
pub struct Sha3Engine {
    state: sha3::Sha3_256,
}

/// The bytes that a hasher has been given since it was created or last
/// reset, in the order in which it was given them. The hasher buffers its
/// input by blocks of its own, so how the bytes were split into calls
/// leaves no trace in it.
pub uninterp spec fn absorbed(engine: Sha3Engine) -> Seq<u8>;

/// The SHA3-256 digest of `message`, as `sha3::Sha3_256::digest` computes
/// it. The algorithm is not written out here. The name claims that the
/// digest depends on the message alone. In the `digest` crate the one-call
/// `digest` is a new hasher, one `update` and `finalize`, so the finalizing
/// calls below return this same function of the bytes absorbed.
pub uninterp spec fn sha3_256(message: Seq<u8>) -> Seq<u8>;

/// `Digest::new` on `sha3::Sha3_256`: a hasher that has absorbed nothing.
#[verifier::external_body]
pub(crate) fn engine_new() -> (engine: Sha3Engine)
    ensures
        absorbed(engine) == Seq::<u8>::empty(),
{
    Sha3Engine { state: <sha3::Sha3_256 as digest::Digest>::new() }
}

/// `Digest::new_with_prefix` on `sha3::Sha3_256`: a new hasher that has
/// absorbed exactly `data`.
#[verifier::external_body]
pub(crate) fn engine_new_with_prefix(data: Vec<u8>) -> (engine: Sha3Engine)
    ensures
        absorbed(engine) == data@,
{
    Sha3Engine { state: <sha3::Sha3_256 as digest::Digest>::new_with_prefix(data) }
}

/// `Digest::update` on `sha3::Sha3_256`: `data` is appended to what the
/// hasher has absorbed.
#[verifier::external_body]
pub(crate) fn engine_update(engine: &mut Sha3Engine, data: Vec<u8>)
    ensures
        absorbed(*final(engine)) == absorbed(*old(engine)) + data@,
{
    digest::Digest::update(&mut engine.state, data)
}

/// `Digest::chain_update` on `sha3::Sha3_256`: the hasher handed back has
/// absorbed what the one handed in had, followed by `data`.
#[verifier::external_body]
pub(crate) fn engine_chain_update(engine: Sha3Engine, data: Vec<u8>) -> (chained: Sha3Engine)
    ensures
        absorbed(chained) == absorbed(engine) + data@,
{
    Sha3Engine { state: digest::Digest::chain_update(engine.state, data) }
}

/// `Digest::finalize` on `sha3::Sha3_256`: the SHA3-256 digest of what the
/// hasher has absorbed.
#[verifier::external_body]
pub(crate) fn engine_finalize(engine: Sha3Engine) -> (out: [u8; OUTPUT_SIZE])
    ensures
        out@ == sha3_256(absorbed(engine)),
{
    digest::Digest::finalize(engine.state).into()
}

/// `Digest::finalize_into` on `sha3::Sha3_256`: the SHA3-256 digest of what
/// the hasher has absorbed is written over `out`.
#[verifier::external_body]
pub(crate) fn engine_finalize_into(engine: Sha3Engine, out: &mut [u8; OUTPUT_SIZE])
    ensures
        final(out)@ == sha3_256(absorbed(engine)),
{
    digest::Digest::finalize_into(engine.state, out.into())
}

/// `Digest::finalize_reset` on `sha3::Sha3_256`: the SHA3-256 digest of what
/// the hasher had absorbed, after which the hasher has absorbed nothing.
#[verifier::external_body]
pub(crate) fn engine_finalize_reset(engine: &mut Sha3Engine) -> (out: [u8; OUTPUT_SIZE])
    ensures
        out@ == sha3_256(absorbed(*old(engine))),
        absorbed(*final(engine)) == Seq::<u8>::empty(),
{
    digest::Digest::finalize_reset(&mut engine.state).into()
}

/// `Digest::finalize_into_reset` on `sha3::Sha3_256`: the SHA3-256 digest of
/// what the hasher had absorbed is written over `out`, after which the
/// hasher has absorbed nothing.
#[verifier::external_body]
pub(crate) fn engine_finalize_into_reset(engine: &mut Sha3Engine, out: &mut [u8; OUTPUT_SIZE])
    ensures
        final(out)@ == sha3_256(absorbed(*old(engine))),
        absorbed(*final(engine)) == Seq::<u8>::empty(),
{
    digest::Digest::finalize_into_reset(&mut engine.state, out.into())
}

/// `Digest::reset` on `sha3::Sha3_256`: the hasher has absorbed nothing.
#[verifier::external_body]
pub(crate) fn engine_reset(engine: &mut Sha3Engine)
    ensures
        absorbed(*final(engine)) == Seq::<u8>::empty(),
{
    digest::Digest::reset(&mut engine.state)
}

/// `Digest::output_size` on `sha3::Sha3_256`: the length of a digest in
/// bytes, which the crate fixes at 32.
#[verifier::external_body]
pub(crate) fn engine_output_size() -> (size: usize)
    ensures
        size == OUTPUT_SIZE,
{
    <sha3::Sha3_256 as digest::Digest>::output_size()
}

/// `Digest::digest` on `sha3::Sha3_256`: the SHA3-256 digest of `data`.
#[verifier::external_body]
pub(crate) fn engine_digest(data: Vec<u8>) -> (out: [u8; OUTPUT_SIZE])
    ensures
        out@ == sha3_256(data@),
{
    <sha3::Sha3_256 as digest::Digest>::digest(data).into()
}

} // verus!
