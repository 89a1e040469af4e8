//! The symmetric cipher unit: AES-256-GCM under a fresh key and a fresh
//! nonce, with no associated data. The key and the nonce travel together as
//! 44 bytes of key material.

use vstd::prelude::*;
use aes_gcm::aead::rand_core::RngCore;
use aes_gcm::aead::Aead;
use aes_gcm::aead::KeyInit;
use aes_gcm::aead::OsRng;
use aes_gcm::Aes256Gcm;
use aes_gcm::Nonce;
use crate::error::CryptoFailure;
use crate::error::EnvelopeError;
use crate::layout::copy_range;
use crate::layout::is_key_material;
use crate::layout::AES_KEY_MAX_SIZE;
use crate::layout::KEY_SIZE;
use crate::layout::NONCE_SIZE;

verus! {

/// Size of the authentication tag that ends a ciphertext.
pub const TAG_SIZE: usize = 16;

/// The longest plaintext that AES-GCM takes under one nonce: 2^36 bytes.
pub const MAX_PLAINTEXT_SIZE: u64 = 68_719_476_736;

/// What AES-256-GCM makes of a plaintext under a key and a nonce, with no
/// associated data: the encrypted bytes followed by the tag.
pub uninterp spec fn aes256_gcm_sealed(key: Seq<u8>, nonce: Seq<u8>, plaintext: Seq<u8>) -> Seq<u8>;

/// What AES-256-GCM recovers from a ciphertext under a key and a nonce, with
/// no associated data: the plaintext, or nothing where the tag does not fit.
pub uninterp spec fn aes256_gcm_opened(key: Seq<u8>, nonce: Seq<u8>, ciphertext: Seq<u8>) -> Option<
    Seq<u8>,
>;

/// `OsRng::try_fill_bytes`, from rand_core by way of aes-gcm: `count` bytes
/// from the operating system's random source, or nothing where the source
/// fails. Which bytes come is a matter of chance.
#[verifier::external_body]
fn os_random_bytes(count: usize) -> (bytes: Option<Vec<u8>>)
    ensures
        bytes matches Some(b) ==> b@.len() == count,
{
    let mut buffer = vec![0u8; count];
    OsRng.try_fill_bytes(&mut buffer).ok()?;
    Some(buffer)
}

/// `Aead::encrypt` of `Aes256Gcm`, keyed by `KeyInit::new_from_slice`. On a
/// 32-byte key and a 12-byte nonce it refuses only a plaintext of more than
/// 2^36 bytes. The ciphertext is a function of key, nonce and plaintext; it is
/// the plaintext's length and a 16-byte tag long, and `Aead::decrypt` under the
/// same key and nonce gives the plaintext back.
#[verifier::external_body]
fn aes256_gcm_encrypt(key: &[u8], nonce: &[u8], plaintext: &[u8]) -> (sealed: Option<Vec<u8>>)
    requires
        key@.len() == KEY_SIZE,
        nonce@.len() == NONCE_SIZE,
    ensures
        sealed is Some <==> plaintext@.len() <= MAX_PLAINTEXT_SIZE,
        sealed matches Some(c) ==> {
            &&& c@ == aes256_gcm_sealed(key@, nonce@, plaintext@)
            &&& c@.len() == plaintext@.len() + TAG_SIZE
            &&& aes256_gcm_opened(key@, nonce@, c@) == Some(plaintext@)
        },
{
    let cipher = Aes256Gcm::new_from_slice(key).ok()?;
    cipher.encrypt(Nonce::from_slice(nonce), plaintext).ok()
}

/// `Aead::decrypt` of `Aes256Gcm`, keyed by `KeyInit::new_from_slice`. What it
/// recovers is a function of key, nonce and ciphertext; a plaintext that comes
/// out is a 16-byte tag shorter than the ciphertext.
#[verifier::external_body]
fn aes256_gcm_decrypt(key: &[u8], nonce: &[u8], ciphertext: &[u8]) -> (opened: Option<Vec<u8>>)
    requires
        key@.len() == KEY_SIZE,
        nonce@.len() == NONCE_SIZE,
    ensures
        opened is Some <==> aes256_gcm_opened(key@, nonce@, ciphertext@) is Some,
        opened matches Some(p) ==> {
            &&& aes256_gcm_opened(key@, nonce@, ciphertext@) == Some(p@)
            &&& p@.len() + TAG_SIZE == ciphertext@.len()
        },
{
    let cipher = Aes256Gcm::new_from_slice(key).ok()?;
    cipher.decrypt(Nonce::from_slice(nonce), ciphertext).ok()
}

/// The key that key material starts with.
pub open spec fn key_of(key_material: Seq<u8>) -> Seq<u8> {
    key_material.subrange(0, KEY_SIZE as int)
}

/// The nonce that key material ends with.
pub open spec fn nonce_of(key_material: Seq<u8>) -> Seq<u8> {
    key_material.subrange(KEY_SIZE as int, AES_KEY_MAX_SIZE as int)
}

/// The ciphertext of a plaintext under key material.
pub open spec fn sealed_content(plaintext: Seq<u8>, key_material: Seq<u8>) -> Seq<u8> {
    aes256_gcm_sealed(key_of(key_material), nonce_of(key_material), plaintext)
}

/// What a ciphertext opens to under key material.
pub open spec fn opened_content(ciphertext: Seq<u8>, key_material: Seq<u8>) -> Option<Seq<u8>> {
    aes256_gcm_opened(key_of(key_material), nonce_of(key_material), ciphertext)
}

/// What encrypting under given key material comes to: a refusal of key
/// material of the wrong length, else a refusal of a plaintext that is too
/// long, else the ciphertext.
pub open spec fn encrypt_outcome(plaintext: Seq<u8>, key_material: Seq<u8>) -> Result<
    Seq<u8>,
    EnvelopeError,
> {
    if !is_key_material(key_material) {
        Err(EnvelopeError::CryptoError(CryptoFailure::InvalidKeyLength))
    } else if plaintext.len() > MAX_PLAINTEXT_SIZE {
        Err(EnvelopeError::CryptoError(CryptoFailure::PlaintextTooLong))
    } else {
        Ok(sealed_content(plaintext, key_material))
    }
}

/// What decrypting under given key material comes to: a refusal of key
/// material of the wrong length, else the plaintext, or a refusal of a
/// ciphertext that does not authenticate.
pub open spec fn decrypt_outcome(ciphertext: Seq<u8>, key_material: Seq<u8>) -> Result<
    Seq<u8>,
    EnvelopeError,
> {
    if !is_key_material(key_material) {
        Err(EnvelopeError::CryptoError(CryptoFailure::InvalidKeyLength))
    } else {
        match opened_content(ciphertext, key_material) {
            Some(plaintext) => Ok(plaintext),
            None => Err(EnvelopeError::CryptoError(CryptoFailure::Authentication)),
        }
    }
}

/// A result of bytes as a result of their view.
pub open spec fn bytes_outcome(outcome: Result<Vec<u8>, EnvelopeError>) -> Result<
    Seq<u8>,
    EnvelopeError,
> {
    match outcome {
        Ok(bytes) => Ok(bytes@),
        Err(e) => Err(e),
    }
}

/// Encrypts `plaintext` under the key and the nonce that `key_material`
/// holds. A ciphertext that comes out is 16 bytes longer than the plaintext
/// and opens to it under the same key material.
pub fn encrypt_with(plaintext: &[u8], key_material: &[u8]) -> (sealed: Result<
    Vec<u8>,
    EnvelopeError,
>)
    ensures
        bytes_outcome(sealed) == encrypt_outcome(plaintext@, key_material@),
        sealed matches Ok(c) ==> {
            &&& c@.len() == plaintext@.len() + TAG_SIZE
            &&& decrypt_outcome(c@, key_material@) == Ok::<Seq<u8>, EnvelopeError>(plaintext@)
        },
{
    if key_material.len() != AES_KEY_MAX_SIZE {
        return Err(EnvelopeError::CryptoError(CryptoFailure::InvalidKeyLength));
    }
    let key = copy_range(key_material, 0, KEY_SIZE);
    let nonce = copy_range(key_material, KEY_SIZE, AES_KEY_MAX_SIZE);
    match aes256_gcm_encrypt(key.as_slice(), nonce.as_slice(), plaintext) {
        Some(ciphertext) => Ok(ciphertext),
        None => Err(EnvelopeError::CryptoError(CryptoFailure::PlaintextTooLong)),
    }
}

/// Decrypts `ciphertext` under the key and the nonce that `key_material`
/// holds.
pub fn decrypt(ciphertext: &[u8], key_material: &[u8]) -> (opened: Result<Vec<u8>, EnvelopeError>)
    ensures
        bytes_outcome(opened) == decrypt_outcome(ciphertext@, key_material@),
        opened matches Ok(p) ==> p@.len() + TAG_SIZE == ciphertext@.len(),
{
    if key_material.len() != AES_KEY_MAX_SIZE {
        return Err(EnvelopeError::CryptoError(CryptoFailure::InvalidKeyLength));
    }
    let key = copy_range(key_material, 0, KEY_SIZE);
    let nonce = copy_range(key_material, KEY_SIZE, AES_KEY_MAX_SIZE);
    match aes256_gcm_decrypt(key.as_slice(), nonce.as_slice(), ciphertext) {
        Some(plaintext) => Ok(plaintext),
        None => Err(EnvelopeError::CryptoError(CryptoFailure::Authentication)),
    }
}

/// What encrypting comes to once the random source has answered: a refusal
/// where it gave nothing, else the outcome under the key material it gave.
pub open spec fn entropy_outcome(plaintext: Seq<u8>, entropy: Option<Seq<u8>>) -> Result<
    (Seq<u8>, Seq<u8>),
    EnvelopeError,
> {
    match entropy {
        None => Err(EnvelopeError::CryptoError(CryptoFailure::RandomSource)),
        Some(key_material) => match encrypt_outcome(plaintext, key_material) {
            Ok(ciphertext) => Ok((ciphertext, key_material)),
            Err(e) => Err(e),
        },
    }
}

/// A result of ciphertext and key material as a result of their views.
pub open spec fn sealed_outcome(outcome: Result<(Vec<u8>, Vec<u8>), EnvelopeError>) -> Result<
    (Seq<u8>, Seq<u8>),
    EnvelopeError,
> {
    match outcome {
        Ok((ciphertext, key_material)) => Ok((ciphertext@, key_material@)),
        Err(e) => Err(e),
    }
}

/// The bytes that a random source gave, if it gave any.
pub open spec fn entropy_view(entropy: Option<Vec<u8>>) -> Option<Seq<u8>> {
    match entropy {
        Some(bytes) => Some(bytes@),
        None => None,
    }
}

/// Encrypts `plaintext` under the key material that the random source gave,
/// and returns the ciphertext with that key material.
pub fn encrypt_with_entropy(plaintext: &[u8], entropy: Option<Vec<u8>>) -> (sealed: Result<
    (Vec<u8>, Vec<u8>),
    EnvelopeError,
>)
    ensures
        sealed_outcome(sealed) == entropy_outcome(plaintext@, entropy_view(entropy)),
        sealed matches Ok((c, k)) ==> {
            &&& c@.len() == plaintext@.len() + TAG_SIZE
            &&& decrypt_outcome(c@, k@) == Ok::<Seq<u8>, EnvelopeError>(plaintext@)
        },
{
    match entropy {
        None => Err(EnvelopeError::CryptoError(CryptoFailure::RandomSource)),
        Some(key_material) => {
            match encrypt_with(plaintext, key_material.as_slice()) {
                Ok(ciphertext) => Ok((ciphertext, key_material)),
                Err(e) => Err(e),
            }
        },
    }
}

/// Encrypts `plaintext` under a fresh random key and a fresh random nonce,
/// and returns the ciphertext with the key material. Whatever the random
/// source gives, a ciphertext that comes out is the plaintext's under the key
/// material beside it, 16 bytes longer than the plaintext, and decrypting it
/// under that key material yields the plaintext again. It fails only where
/// the random source does or the plaintext is too long, and on a plaintext
/// that is too long it always fails.
pub fn encrypt(plaintext: &[u8]) -> (sealed: Result<(Vec<u8>, Vec<u8>), EnvelopeError>)
    ensures
        sealed matches Ok((c, k)) ==> {
            &&& is_key_material(k@)
            &&& plaintext@.len() <= MAX_PLAINTEXT_SIZE
            &&& c@ == sealed_content(plaintext@, k@)
            &&& c@.len() == plaintext@.len() + TAG_SIZE
            &&& decrypt_outcome(c@, k@) == Ok::<Seq<u8>, EnvelopeError>(plaintext@)
        },
        sealed matches Err(e) ==> {
            ||| e == EnvelopeError::CryptoError(CryptoFailure::RandomSource)
            ||| (e == EnvelopeError::CryptoError(CryptoFailure::PlaintextTooLong)
                && plaintext@.len() > MAX_PLAINTEXT_SIZE)
        },
{
    let entropy = os_random_bytes(AES_KEY_MAX_SIZE);
    encrypt_with_entropy(plaintext, entropy)
}

} // verus!
