//! The shielding unit. An envelope is encrypted for one custodian under the
//! custodian's RSA-3072 public key with OAEP padding over SHA-256. The
//! asymmetric encryption is the caller's to perform; what is decided before
//! it and after it is decided here. Before: the public key has its fixed
//! layout and the payload fits in one block. After: what came back is one
//! block of ciphertext.

use vstd::prelude::*;
use crate::error::EnvelopeError;
use crate::error::ShieldingFailure;
use crate::layout::copy_range;
use crate::layout::Sha256PrivateKeyHash;
use crate::layout::ShieldedKey;

verus! {

/// Size of an RSA-3072 modulus.
pub const RSA3072_KEY_SIZE: usize = 384;

/// Size of the public exponent that follows the modulus.
pub const RSA3072_PUB_EXP_SIZE: usize = 4;

/// Size of a custodian's public key: the modulus, then the exponent.
pub const PUBLIC_KEY_SIZE: usize = 384 + 4;

/// Size of one block of ciphertext.
pub const SHIELD_BLOCK_SIZE: usize = 384;

/// The most that one block holds: the 384 bytes of the modulus less two
/// SHA-256 digests and two bytes of padding.
pub const MAX_SHIELD_PAYLOAD: usize = 318;

/// What is to be encrypted, and under which key.
#[derive(Clone, PartialEq, Eq, Debug)]
pub struct ShieldRequest {
    pub modulus: Vec<u8>,
    pub exponent: Vec<u8>,
    pub payload: Vec<u8>,
}

/// A request as plain byte strings.
pub struct ShieldRequestView {
    pub modulus: Seq<u8>,
    pub exponent: Seq<u8>,
    pub payload: Seq<u8>,
}

impl View for ShieldRequest {
    type V = ShieldRequestView;

    open spec fn view(&self) -> ShieldRequestView {
        ShieldRequestView {
            modulus: self.modulus@,
            exponent: self.exponent@,
            payload: self.payload@,
        }
    }
}

/// A public key has its layout when it is 388 bytes long.
pub open spec fn is_public_key(bytes: Seq<u8>) -> bool {
    bytes.len() == PUBLIC_KEY_SIZE
}

/// The number of ciphertext bytes that a payload comes to: one block for
/// every 318 bytes or part of them.
pub open spec fn shielded_size(payload_len: nat) -> nat {
    ((payload_len + 317) / 318 * 384) as nat
}

/// What preparing a request comes to: a refusal of a public key without the
/// layout, else a refusal of a payload that one block cannot hold, else the
/// request, with the public key taken apart.
pub open spec fn request_outcome(payload: Seq<u8>, public_key: Seq<u8>) -> Result<
    ShieldRequestView,
    EnvelopeError,
> {
    if !is_public_key(public_key) {
        Err(EnvelopeError::ShieldingError(ShieldingFailure::MalformedPublicKey))
    } else if payload.len() > MAX_SHIELD_PAYLOAD {
        Err(EnvelopeError::ShieldingError(ShieldingFailure::PayloadTooLarge))
    } else {
        Ok(
            ShieldRequestView {
                modulus: public_key.subrange(0, RSA3072_KEY_SIZE as int),
                exponent: public_key.subrange(RSA3072_KEY_SIZE as int, PUBLIC_KEY_SIZE as int),
                payload,
            },
        )
    }
}

/// What the answer to a request comes to: a refusal where the payload was
/// more than one block holds, else the bytes where they are as many as the
/// payload calls for, else a refusal.
pub open spec fn shielded_outcome(payload_len: nat, answer: Option<Seq<u8>>) -> Result<
    Seq<u8>,
    EnvelopeError,
> {
    if payload_len > MAX_SHIELD_PAYLOAD {
        Err(EnvelopeError::ShieldingError(ShieldingFailure::PayloadTooLarge))
    } else {
        match answer {
            Some(bytes) if bytes.len() == shielded_size(payload_len) => Ok(bytes),
            _ => Err(EnvelopeError::ShieldingError(ShieldingFailure::Rejected)),
        }
    }
}

/// A prepared request, or the refusal, as plain values.
pub open spec fn request_view(outcome: Result<ShieldRequest, EnvelopeError>) -> Result<
    ShieldRequestView,
    EnvelopeError,
> {
    match outcome {
        Ok(request) => Ok(request@),
        Err(e) => Err(e),
    }
}

/// The answer to a request as plain values.
pub open spec fn answer_view(answer: Option<Vec<u8>>) -> Option<Seq<u8>> {
    match answer {
        Some(bytes) => Some(bytes@),
        None => None,
    }
}

/// Shielded bytes, or the refusal, as plain values.
pub open spec fn shielded_view(outcome: Result<ShieldedKey, EnvelopeError>) -> Result<
    Seq<u8>,
    EnvelopeError,
> {
    match outcome {
        Ok(bytes) => Ok(bytes@),
        Err(e) => Err(e),
    }
}

/// Prepares the encryption of `payload` under a custodian's public key.
pub fn payload_request(payload: &[u8], public_key: &[u8]) -> (request: Result<
    ShieldRequest,
    EnvelopeError,
>)
    ensures
        request_view(request) == request_outcome(payload@, public_key@),
{
    if public_key.len() != PUBLIC_KEY_SIZE {
        return Err(EnvelopeError::ShieldingError(ShieldingFailure::MalformedPublicKey));
    }
    if payload.len() > MAX_SHIELD_PAYLOAD {
        return Err(EnvelopeError::ShieldingError(ShieldingFailure::PayloadTooLarge));
    }
    let request = ShieldRequest {
        modulus: copy_range(public_key, 0, RSA3072_KEY_SIZE),
        exponent: copy_range(public_key, RSA3072_KEY_SIZE, PUBLIC_KEY_SIZE),
        payload: copy_range(payload, 0, payload.len()),
    };
    assert(request.payload@ == payload@);
    Ok(request)
}

/// Prepares the shielding of an envelope for one custodian: the payload is
/// the envelope in its canonical layout.
pub fn shield_request(envelope: &Sha256PrivateKeyHash, public_key: &[u8]) -> (request: Result<
    ShieldRequest,
    EnvelopeError,
>)
    ensures
        request_view(request) == request_outcome(envelope.encoding(), public_key@),
{
    let payload = envelope.encode();
    payload_request(payload.as_slice(), public_key)
}

/// The number of ciphertext bytes that a payload of `payload_len` bytes
/// comes to: none for an empty payload, else one block.
fn expected_shielded_size(payload_len: usize) -> (size: usize)
    requires
        payload_len <= MAX_SHIELD_PAYLOAD,
    ensures
        size == shielded_size(payload_len as nat),
        size == if payload_len == 0 {
            0
        } else {
            SHIELD_BLOCK_SIZE
        },
{
    if payload_len == 0 {
        0
    } else {
        assert((payload_len + 317) / 318 == 1);
        SHIELD_BLOCK_SIZE
    }
}

/// Takes the answer to a request for a payload of `payload_len` bytes: the
/// ciphertext that the asymmetric encryption returned, or nothing where it
/// failed.
pub fn accept_shielded(payload_len: usize, answer: Option<Vec<u8>>) -> (shielded: Result<
    ShieldedKey,
    EnvelopeError,
>)
    ensures
        shielded_view(shielded) == shielded_outcome(payload_len as nat, answer_view(answer)),
        shielded matches Ok(bytes) ==> answer == Some(bytes),
{
    if payload_len > MAX_SHIELD_PAYLOAD {
        return Err(EnvelopeError::ShieldingError(ShieldingFailure::PayloadTooLarge));
    }
    let size = expected_shielded_size(payload_len);
    match answer {
        Some(bytes) => {
            if bytes.len() == size {
                Ok(bytes)
            } else {
                Err(EnvelopeError::ShieldingError(ShieldingFailure::Rejected))
            }
        },
        None => Err(EnvelopeError::ShieldingError(ShieldingFailure::Rejected)),
    }
}

} // verus!
