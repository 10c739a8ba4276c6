//! A deliberately weakened SHA3-256: every chunk handed to the hasher has the
//! two most significant bits of its first byte cleared before the SHA3-256
//! engine of the `sha3` crate absorbs it.

pub mod engine;
pub mod error;
pub mod laws;
pub mod model;
pub mod transform;
pub mod weak;

pub use error::DigestError;
pub use transform::transform;
pub use weak::WeakSha3256;
