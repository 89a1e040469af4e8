//! The time binding unit and the envelope composer. A digest over the
//! canonical layout of key material and release time commits the key to that
//! time; the envelope carries the digest beside the key material, so that a
//! holder of both and of the timestamp can take the digest again and compare.

use vstd::prelude::*;
use sha2::Digest;
use sha2::Sha256;
use crate::layout::key_time_encoding;
use crate::layout::copy_range;
use crate::layout::Sha256PrivateKeyHash;
use crate::layout::Sha256PrivateKeyTime;
use crate::layout::DIGEST_SIZE;

verus! {

/// The SHA-256 digest of a byte string.
pub uninterp spec fn sha256(data: Seq<u8>) -> Seq<u8>;

/// `Sha256::digest` of the sha2 crate: the SHA-256 digest of `data`, which is
/// a function of the bytes alone and 32 bytes long.
#[verifier::external_body]
fn sha256_digest(data: &[u8]) -> (digest: Vec<u8>)
    ensures
        digest@ == sha256(data@),
        digest@.len() == DIGEST_SIZE,
{
    Sha256::digest(data).to_vec()
}

/// The digest that binds key material to a release time: SHA-256 over the
/// canonical layout of the two.
pub open spec fn binding_digest(key_material: Seq<u8>, release_timestamp: u64) -> Seq<u8> {
    sha256(key_time_encoding(key_material, release_timestamp))
}

/// Values that have a digest of type `I`.
pub trait Hash<I> {
    /// Whether `digest` is the digest of this value.
    spec fn is_hash(&self, digest: I) -> bool;

    /// Takes the digest of this value.
    fn hash(&self) -> (digest: I)
        ensures
            self.is_hash(digest),
    ;
}

/// The digest of a binding is SHA-256 over its canonical layout.
impl Hash<Vec<u8>> for Sha256PrivateKeyTime {
    open spec fn is_hash(&self, digest: Vec<u8>) -> bool {
        &&& digest@ == binding_digest(self.aes_private_key@, self.timestamp)
        &&& digest@.len() == DIGEST_SIZE
    }

    fn hash(&self) -> (digest: Vec<u8>) {
        let data = self.encode();
        sha256_digest(data.as_slice())
    }
}

/// Binds key material to a release time. The digest depends on the bytes of
/// the key material and on the timestamp, and on nothing else.
pub fn bind(key_material: &[u8], release_timestamp: u64) -> (digest: Vec<u8>)
    ensures
        digest@ == binding_digest(key_material@, release_timestamp),
        digest@.len() == DIGEST_SIZE,
{
    let binding = Sha256PrivateKeyTime {
        aes_private_key: copy_range(key_material, 0, key_material.len()),
        timestamp: release_timestamp,
    };
    assert(binding.aes_private_key@ == key_material@);
    binding.hash()
}

/// Puts key material and its digest together for shielding.
pub fn compose(key_material: Vec<u8>, digest: Vec<u8>) -> (envelope: Sha256PrivateKeyHash)
    ensures
        envelope.aes_private_key == key_material,
        envelope.hash == digest,
{
    Sha256PrivateKeyHash { aes_private_key: key_material, hash: digest }
}

/// Binding is a function of its inputs: the same key material and the same
/// timestamp give the same digest, whenever and wherever it is taken.
pub proof fn lemma_bind_deterministic(
    key_a: Seq<u8>,
    time_a: u64,
    key_b: Seq<u8>,
    time_b: u64,
)
    requires
        key_a == key_b,
        time_a == time_b,
    ensures
        binding_digest(key_a, time_a) == binding_digest(key_b, time_b),
{
}

} // verus!
