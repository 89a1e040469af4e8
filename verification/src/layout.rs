//! The canonical byte layouts. A binding of key material to a release time is
//! the key material followed by the timestamp in eight little-endian bytes; an
//! envelope is the key material followed by the digest. Nothing else is written
//! between or around the fields, so a consumer can rebuild either layout byte
//! for byte.

use vstd::prelude::*;
use vstd::bytes::spec_u64_from_le_bytes;
use vstd::bytes::spec_u64_to_le_bytes;
use vstd::bytes::lemma_auto_spec_u64_to_from_le_bytes;
use parity_scale_codec::Decode;
use parity_scale_codec::Encode;

verus! {

/// Size of an AES-256 key.
pub const KEY_SIZE: usize = 32;

/// Size of an AES-GCM nonce.
pub const NONCE_SIZE: usize = 12;

/// 256-bit AES key plus 96-bit nonce.
pub const AES_KEY_MAX_SIZE: usize = 32 + 12;

/// Size of a SHA-256 digest.
pub const DIGEST_SIZE: usize = 32;

/// Size of an encoded timestamp.
pub const TIMESTAMP_SIZE: usize = 8;

/// Size of an encoded binding of key material to a release time.
pub const KEY_TIME_SIZE: usize = 44 + 8;

/// Size of an encoded envelope.
pub const KEY_HASH_SIZE: usize = 44 + 32;

/// Shielded bytes, as handed to a custodian.
pub type ShieldedKey = Vec<u8>;

/// Key material and the time at which it may be released. The digest of its
/// encoding commits the key to that time.
#[derive(Clone, PartialEq, Eq, Debug)]
pub struct Sha256PrivateKeyTime {
    pub aes_private_key: Vec<u8>,
    pub timestamp: u64,
}

/// Key material and the digest that binds it to its release time: what is
/// shielded for a custodian.
#[derive(Clone, PartialEq, Eq, Debug)]
pub struct Sha256PrivateKeyHash {
    pub aes_private_key: Vec<u8>,
    pub hash: Vec<u8>,
}

/// Key material is a 32-byte key followed by a 12-byte nonce.
pub open spec fn is_key_material(bytes: Seq<u8>) -> bool {
    bytes.len() == AES_KEY_MAX_SIZE
}

/// The layout of a binding: the key material, then the timestamp in eight
/// little-endian bytes.
pub open spec fn key_time_encoding(key_material: Seq<u8>, timestamp: u64) -> Seq<u8> {
    key_material + spec_u64_to_le_bytes(timestamp)
}

/// The layout of an envelope: the key material, then the digest.
pub open spec fn key_hash_encoding(key_material: Seq<u8>, digest: Seq<u8>) -> Seq<u8> {
    key_material + digest
}

/// The key material that an encoded binding or envelope starts with.
pub open spec fn encoded_key_material(bytes: Seq<u8>) -> Seq<u8> {
    bytes.subrange(0, AES_KEY_MAX_SIZE as int)
}

/// What follows the key material in an encoded binding or envelope.
pub open spec fn encoded_tail(bytes: Seq<u8>) -> Seq<u8> {
    bytes.subrange(AES_KEY_MAX_SIZE as int, bytes.len() as int)
}

/// `Encode::encode` of parity-scale-codec on a `u64`: the number's eight
/// bytes, least significant first.
#[verifier::external_body]
fn scale_encode_u64(value: u64) -> (bytes: Vec<u8>)
    ensures
        bytes@ == spec_u64_to_le_bytes(value),
{
    value.encode()
}

/// `Decode::decode` of parity-scale-codec for a `u64`, on exactly eight
/// bytes: the number that they spell, least significant byte first. On eight
/// bytes the decoder has all the input it reads, so it does not fail.
#[verifier::external_body]
fn scale_decode_u64(bytes: &[u8]) -> (value: Option<u64>)
    requires
        bytes@.len() == TIMESTAMP_SIZE,
    ensures
        value == Some(spec_u64_from_le_bytes(bytes@)),
{
    let mut input: &[u8] = bytes;
    u64::decode(&mut input).ok()
}

/// Appends `source` to `target`.
pub(crate) fn append_bytes(target: &mut Vec<u8>, source: &[u8])
    ensures
        final(target)@ == old(target)@ + source@,
{
    let mut i: usize = 0;
    while i < source.len()
        invariant
            i <= source@.len(),
            target@ == old(target)@ + source@.subrange(0, i as int),
        decreases source@.len() - i,
    {
        target.push(source[i]);
        i = i + 1;
    }
    assert(source@.subrange(0, i as int) == source@);
}

/// The bytes of `source` from `start` up to, not including, `end`.
pub(crate) fn copy_range(source: &[u8], start: usize, end: usize) -> (bytes: Vec<u8>)
    requires
        start <= end <= source@.len(),
    ensures
        bytes@ == source@.subrange(start as int, end as int),
{
    let mut bytes: Vec<u8> = Vec::new();
    let mut i: usize = start;
    while i < end
        invariant
            start <= i <= end <= source@.len(),
            bytes@ == source@.subrange(start as int, i as int),
        decreases end - i,
    {
        bytes.push(source[i]);
        i = i + 1;
    }
    bytes
}

impl Sha256PrivateKeyTime {
    /// The key material is 44 bytes long.
    pub open spec fn wf(&self) -> bool {
        is_key_material(self.aes_private_key@)
    }

    /// The bytes that the digest is taken over.
    pub open spec fn encoding(&self) -> Seq<u8> {
        key_time_encoding(self.aes_private_key@, self.timestamp)
    }

    /// Writes the binding in its canonical layout.
    pub fn encode(&self) -> (bytes: Vec<u8>)
        ensures
            bytes@ == self.encoding(),
            bytes@.len() == self.aes_private_key@.len() + TIMESTAMP_SIZE,
    {
        let mut bytes: Vec<u8> = Vec::new();
        append_bytes(&mut bytes, self.aes_private_key.as_slice());
        let stamp = scale_encode_u64(self.timestamp);
        append_bytes(&mut bytes, stamp.as_slice());
        proof {
            lemma_auto_spec_u64_to_from_le_bytes();
        }
        bytes
    }

    /// Reads a binding back from its canonical layout. Only input of exactly
    /// 52 bytes is one.
    pub fn decode(bytes: &[u8]) -> (binding: Option<Sha256PrivateKeyTime>)
        ensures
            bytes@.len() == KEY_TIME_SIZE <==> binding is Some,
            binding matches Some(b) ==> {
                &&& b.wf()
                &&& b.aes_private_key@ == encoded_key_material(bytes@)
                &&& b.timestamp == spec_u64_from_le_bytes(encoded_tail(bytes@))
                &&& b.encoding() == bytes@
            },
    {
        if bytes.len() != KEY_TIME_SIZE {
            return None;
        }
        let aes_private_key = copy_range(bytes, 0, AES_KEY_MAX_SIZE);
        let stamp = copy_range(bytes, AES_KEY_MAX_SIZE, KEY_TIME_SIZE);
        match scale_decode_u64(stamp.as_slice()) {
            Some(timestamp) => {
                proof {
                    lemma_auto_spec_u64_to_from_le_bytes();
                    assert(spec_u64_to_le_bytes(timestamp) == stamp@);
                    assert(aes_private_key@ + stamp@ == bytes@);
                }
                Some(Sha256PrivateKeyTime { aes_private_key, timestamp })
            },
            None => None,
        }
    }
}

impl Sha256PrivateKeyHash {
    /// The key material is 44 bytes long and the digest 32.
    pub open spec fn wf(&self) -> bool {
        &&& is_key_material(self.aes_private_key@)
        &&& self.hash@.len() == DIGEST_SIZE
    }

    /// The bytes that are shielded for a custodian.
    pub open spec fn encoding(&self) -> Seq<u8> {
        key_hash_encoding(self.aes_private_key@, self.hash@)
    }

    /// Writes the envelope in its canonical layout.
    pub fn encode(&self) -> (bytes: Vec<u8>)
        ensures
            bytes@ == self.encoding(),
            bytes@.len() == self.aes_private_key@.len() + self.hash@.len(),
    {
        let mut bytes: Vec<u8> = Vec::new();
        append_bytes(&mut bytes, self.aes_private_key.as_slice());
        append_bytes(&mut bytes, self.hash.as_slice());
        bytes
    }

    /// Reads an envelope back from its canonical layout. Only input of
    /// exactly 76 bytes is one.
    pub fn decode(bytes: &[u8]) -> (envelope: Option<Sha256PrivateKeyHash>)
        ensures
            bytes@.len() == KEY_HASH_SIZE <==> envelope is Some,
            envelope matches Some(e) ==> {
                &&& e.wf()
                &&& e.aes_private_key@ == encoded_key_material(bytes@)
                &&& e.hash@ == encoded_tail(bytes@)
                &&& e.encoding() == bytes@
            },
    {
        if bytes.len() != KEY_HASH_SIZE {
            return None;
        }
        let aes_private_key = copy_range(bytes, 0, AES_KEY_MAX_SIZE);
        let hash = copy_range(bytes, AES_KEY_MAX_SIZE, KEY_HASH_SIZE);
        assert(aes_private_key@ + hash@ == bytes@);
        Some(Sha256PrivateKeyHash { aes_private_key, hash })
    }
}

/// Two bindings with key material of one length have the same encoding
/// exactly when they agree in key material and in timestamp: a change to any
/// byte of the key material, or to the timestamp, changes the encoding.
pub proof fn lemma_key_time_encoding_injective(
    key_a: Seq<u8>,
    time_a: u64,
    key_b: Seq<u8>,
    time_b: u64,
)
    requires
        key_a.len() == key_b.len(),
    ensures
        key_time_encoding(key_a, time_a) == key_time_encoding(key_b, time_b) <==> (key_a == key_b
            && time_a == time_b),
        key_time_encoding(key_a, time_a).len() == key_a.len() + TIMESTAMP_SIZE,
{
    lemma_auto_spec_u64_to_from_le_bytes();
    let stamp_a = spec_u64_to_le_bytes(time_a);
    let stamp_b = spec_u64_to_le_bytes(time_b);
    let n = key_a.len() as int;
    if key_time_encoding(key_a, time_a) == key_time_encoding(key_b, time_b) {
        let whole = key_time_encoding(key_a, time_a);
        assert(whole.subrange(0, n) == key_a);
        assert(whole.subrange(0, n) == key_b);
        assert(whole.subrange(n, n + 8) == stamp_a);
        assert(whole.subrange(n, n + 8) == stamp_b);
        assert(spec_u64_from_le_bytes(stamp_a) == time_a);
        assert(spec_u64_from_le_bytes(stamp_b) == time_b);
    }
}

/// Two envelopes with key material of one length have the same encoding
/// exactly when they agree in key material and in digest.
pub proof fn lemma_key_hash_encoding_injective(
    key_a: Seq<u8>,
    digest_a: Seq<u8>,
    key_b: Seq<u8>,
    digest_b: Seq<u8>,
)
    requires
        key_a.len() == key_b.len(),
    ensures
        key_hash_encoding(key_a, digest_a) == key_hash_encoding(key_b, digest_b) <==> (key_a
            == key_b && digest_a == digest_b),
        key_hash_encoding(key_a, digest_a).len() == key_a.len() + digest_a.len(),
{
    let n = key_a.len() as int;
    if key_hash_encoding(key_a, digest_a) == key_hash_encoding(key_b, digest_b) {
        let whole = key_hash_encoding(key_a, digest_a);
        assert(whole.subrange(0, n) == key_a);
        assert(whole.subrange(0, n) == key_b);
        assert(whole.subrange(n, whole.len() as int) == digest_a);
        assert(whole.subrange(n, whole.len() as int) == digest_b);
    }
}

/// Decoding what `encode` wrote gives the binding back: on well-formed key
/// material the layout loses nothing.
pub proof fn lemma_key_time_round_trip(key_material: Seq<u8>, timestamp: u64)
    requires
        is_key_material(key_material),
    ensures
        key_time_encoding(key_material, timestamp).len() == KEY_TIME_SIZE,
        encoded_key_material(key_time_encoding(key_material, timestamp)) == key_material,
        spec_u64_from_le_bytes(encoded_tail(key_time_encoding(key_material, timestamp)))
            == timestamp,
{
    lemma_auto_spec_u64_to_from_le_bytes();
    let whole = key_time_encoding(key_material, timestamp);
    assert(encoded_key_material(whole) == key_material);
    assert(encoded_tail(whole) == spec_u64_to_le_bytes(timestamp));
}

/// Decoding what `encode` wrote gives the envelope back.
pub proof fn lemma_key_hash_round_trip(key_material: Seq<u8>, digest: Seq<u8>)
    requires
        is_key_material(key_material),
        digest.len() == DIGEST_SIZE,
    ensures
        key_hash_encoding(key_material, digest).len() == KEY_HASH_SIZE,
        encoded_key_material(key_hash_encoding(key_material, digest)) == key_material,
        encoded_tail(key_hash_encoding(key_material, digest)) == digest,
{
    let whole = key_hash_encoding(key_material, digest);
    assert(encoded_key_material(whole) == key_material);
    assert(encoded_tail(whole) == digest);
}

} // verus!
