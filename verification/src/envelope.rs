//! The pipeline from content to bundle: the content is encrypted under fresh
//! key material, the key material is bound to the release time, and the two
//! are composed into the envelope that is shielded for the custodians. The
//! ciphertext, the release time and the shielded pieces make up the bundle
//! that is handed on.

use vstd::prelude::*;
use crate::binding::bind;
use crate::binding::binding_digest;
use crate::binding::compose;
use crate::cipher::decrypt_outcome;
use crate::cipher::encrypt_with_entropy;
use crate::cipher::entropy_outcome;
use crate::cipher::entropy_view;
use crate::cipher::TAG_SIZE;
use crate::cipher::MAX_PLAINTEXT_SIZE;
use crate::cipher::encrypt;
use crate::distribution::ShieldedKeyPiece;
use crate::error::CryptoFailure;
use crate::error::EnvelopeError;
use crate::error::ShieldingFailure;
use crate::layout::is_key_material;
use crate::layout::encoded_key_material;
use crate::layout::encoded_tail;
use crate::layout::key_hash_encoding;
use crate::layout::lemma_key_hash_round_trip;
use crate::layout::Sha256PrivateKeyHash;
use crate::layout::DIGEST_SIZE;
use crate::layout::KEY_HASH_SIZE;
use crate::shield::is_public_key;
use crate::shield::request_outcome;
use crate::shield::ShieldRequestView;

verus! {

/// Encrypted content with the time of its release and the envelope that
/// holds its key.
#[derive(Clone, PartialEq, Eq, Debug)]
pub struct SealedContent {
    pub ciphertext: Vec<u8>,
    pub release_time: u64,
    pub envelope: Sha256PrivateKeyHash,
}

/// Sealed content as plain values.
pub struct SealedView {
    pub ciphertext: Seq<u8>,
    pub release_time: u64,
    pub key_material: Seq<u8>,
    pub digest: Seq<u8>,
}

impl View for SealedContent {
    type V = SealedView;

    open spec fn view(&self) -> SealedView {
        SealedView {
            ciphertext: self.ciphertext@,
            release_time: self.release_time,
            key_material: self.envelope.aes_private_key@,
            digest: self.envelope.hash@,
        }
    }
}

/// What is submitted: the encrypted content, the time of its release, and
/// one shielded piece for each custodian, in the custodians' order.
#[derive(Clone, PartialEq, Eq, Debug)]
pub struct Bundle {
    pub ciphertext: Vec<u8>,
    pub release_time: u64,
    pub key_pieces: Vec<ShieldedKeyPiece>,
}

/// Refuses to go on where the registry knows no custodian.
pub fn require_custodians(custodian_count: u64) -> (checked: Result<(), EnvelopeError>)
    ensures
        custodian_count < 1 ==> checked == Err::<(), EnvelopeError>(
            EnvelopeError::NoCustodiansAvailable,
        ),
        custodian_count >= 1 ==> checked == Ok::<(), EnvelopeError>(()),
{
    if custodian_count < 1 {
        Err(EnvelopeError::NoCustodiansAvailable)
    } else {
        Ok(())
    }
}

/// What sealing comes to once the random source has answered: a refusal
/// where there is no custodian, before anything is encrypted; else what the
/// cipher refuses; else the ciphertext, with the key material bound to the
/// release time.
pub open spec fn seal_outcome(
    plaintext: Seq<u8>,
    release_time: u64,
    custodian_count: u64,
    entropy: Option<Seq<u8>>,
) -> Result<SealedView, EnvelopeError> {
    if custodian_count < 1 {
        Err(EnvelopeError::NoCustodiansAvailable)
    } else {
        match entropy_outcome(plaintext, entropy) {
            Ok((ciphertext, key_material)) => Ok(
                SealedView {
                    ciphertext,
                    release_time,
                    key_material,
                    digest: binding_digest(key_material, release_time),
                },
            ),
            Err(e) => Err(e),
        }
    }
}

/// Sealed content, or the refusal, as plain values.
pub open spec fn sealed_view(outcome: Result<SealedContent, EnvelopeError>) -> Result<
    SealedView,
    EnvelopeError,
> {
    match outcome {
        Ok(sealed) => Ok(sealed@),
        Err(e) => Err(e),
    }
}

/// Sealed content holds together: the envelope is well formed, its digest
/// binds its key material to the release time, and the ciphertext is 16
/// bytes longer than the plaintext and decrypts to it under the key material.
pub open spec fn seals(sealed: SealedView, plaintext: Seq<u8>) -> bool {
    &&& is_key_material(sealed.key_material)
    &&& sealed.digest.len() == DIGEST_SIZE
    &&& sealed.digest == binding_digest(sealed.key_material, sealed.release_time)
    &&& sealed.ciphertext.len() == plaintext.len() + TAG_SIZE
    &&& decrypt_outcome(sealed.ciphertext, sealed.key_material) == Ok::<Seq<u8>, EnvelopeError>(
        plaintext,
    )
}

/// Binds the key material that the content was encrypted under to the
/// release time and composes the envelope.
fn seal_content(ciphertext: Vec<u8>, key_material: Vec<u8>, release_time: u64) -> (sealed:
    SealedContent)
    ensures
        sealed@ == (SealedView {
            ciphertext: ciphertext@,
            release_time,
            key_material: key_material@,
            digest: binding_digest(key_material@, release_time),
        }),
        sealed.envelope.hash@.len() == DIGEST_SIZE,
{
    let digest = bind(key_material.as_slice(), release_time);
    let envelope = compose(key_material, digest);
    SealedContent { ciphertext, release_time, envelope }
}

/// Seals `plaintext` for release at `release_time` under the key material
/// that the random source gave.
pub fn seal_with_entropy(
    plaintext: &[u8],
    release_time: u64,
    custodian_count: u64,
    entropy: Option<Vec<u8>>,
) -> (sealed: Result<SealedContent, EnvelopeError>)
    ensures
        sealed_view(sealed) == seal_outcome(
            plaintext@,
            release_time,
            custodian_count,
            entropy_view(entropy),
        ),
        sealed matches Ok(s) ==> seals(s@, plaintext@),
{
    match require_custodians(custodian_count) {
        Err(e) => Err(e),
        Ok(_) => match encrypt_with_entropy(plaintext, entropy) {
            Ok((ciphertext, key_material)) => Ok(
                seal_content(ciphertext, key_material, release_time),
            ),
            Err(e) => Err(e),
        },
    }
}

/// Seals `plaintext` for release at `release_time` under fresh key material.
/// Where there is no custodian it refuses before anything is drawn or
/// encrypted. Else it fails only where the random source does or the
/// plaintext is too long, and on a plaintext that is too long it always
/// fails. Whatever the random source gives, sealed content that comes out
/// holds together.
pub fn seal(plaintext: &[u8], release_time: u64, custodian_count: u64) -> (sealed: Result<
    SealedContent,
    EnvelopeError,
>)
    ensures
        custodian_count < 1 ==> sealed_view(sealed) == Err::<SealedView, EnvelopeError>(
            EnvelopeError::NoCustodiansAvailable,
        ),
        sealed matches Ok(s) ==> {
            &&& custodian_count >= 1
            &&& plaintext@.len() <= MAX_PLAINTEXT_SIZE
            &&& s.release_time == release_time
            &&& seals(s@, plaintext@)
        },
        sealed matches Err(e) ==> {
            ||| (e == EnvelopeError::NoCustodiansAvailable && custodian_count < 1)
            ||| (e == EnvelopeError::CryptoError(CryptoFailure::RandomSource) && custodian_count
                >= 1)
            ||| (e == EnvelopeError::CryptoError(CryptoFailure::PlaintextTooLong)
                && custodian_count >= 1 && plaintext@.len() > MAX_PLAINTEXT_SIZE)
        },
{
    match require_custodians(custodian_count) {
        Err(e) => Err(e),
        Ok(_) => match encrypt(plaintext) {
            Ok((ciphertext, key_material)) => Ok(
                seal_content(ciphertext, key_material, release_time),
            ),
            Err(e) => Err(e),
        },
    }
}

/// Puts the bundle together from sealed content and the pieces of its
/// distribution set.
pub fn assemble(sealed: SealedContent, key_pieces: Vec<ShieldedKeyPiece>) -> (bundle: Bundle)
    ensures
        bundle.ciphertext == sealed.ciphertext,
        bundle.release_time == sealed.release_time,
        bundle.key_pieces == key_pieces,
{
    Bundle { ciphertext: sealed.ciphertext, release_time: sealed.release_time, key_pieces }
}

/// A well-formed envelope fits in one block: preparing its shielding fails
/// only on a public key without the layout.
pub proof fn lemma_envelope_fits_one_block(
    key_material: Seq<u8>,
    digest: Seq<u8>,
    public_key: Seq<u8>,
)
    requires
        is_key_material(key_material),
        digest.len() == DIGEST_SIZE,
    ensures
        request_outcome(key_hash_encoding(key_material, digest), public_key) is Ok
            <==> is_public_key(public_key),
        !is_public_key(public_key) ==> request_outcome(
            key_hash_encoding(key_material, digest),
            public_key,
        ) == Err::<ShieldRequestView, EnvelopeError>(
            EnvelopeError::ShieldingError(ShieldingFailure::MalformedPublicKey),
        ),
{
}

/// A holder who has an envelope's bytes back and knows the release time can
/// check the one against the other. Where the digest is 32 bytes long, the
/// envelope composed of key material and its binding to the release time is
/// 76 bytes long, and the digest taken over the key material that it starts
/// with, at that release time, is the digest that it ends with.
pub proof fn lemma_envelope_digest_verifies(key_material: Seq<u8>, release_time: u64)
    requires
        is_key_material(key_material),
    ensures
        binding_digest(key_material, release_time).len() == DIGEST_SIZE ==> ({
            let bytes = key_hash_encoding(
                key_material,
                binding_digest(key_material, release_time),
            );
            &&& bytes.len() == KEY_HASH_SIZE
            &&& encoded_key_material(bytes) == key_material
            &&& encoded_tail(bytes) == binding_digest(encoded_key_material(bytes), release_time)
        }),
{
    if binding_digest(key_material, release_time).len() == DIGEST_SIZE {
        lemma_key_hash_round_trip(key_material, binding_digest(key_material, release_time));
    }
}

} // verus!
