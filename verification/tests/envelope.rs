use trex_envelope::binding::bind;
use trex_envelope::cipher::decrypt;
use trex_envelope::clock::release_time;
use trex_envelope::distribution::build;
use trex_envelope::distribution::BuildProgress;
use trex_envelope::distribution::Custodian;
use trex_envelope::distribution::ShieldedKeyPiece;
use trex_envelope::envelope::assemble;
use trex_envelope::envelope::require_custodians;
use trex_envelope::envelope::seal;
use trex_envelope::envelope::seal_with_entropy;
use trex_envelope::envelope::Bundle;
use trex_envelope::envelope::SealedContent;
use trex_envelope::error::CryptoFailure;
use trex_envelope::error::EnvelopeError;
use trex_envelope::layout::Sha256PrivateKeyHash;

fn counting_key_material() -> Vec<u8> {
    let mut bytes: Vec<u8> = Vec::new();
    let mut i: u8 = 0;
    while i < 44 {
        bytes.push(i);
        i += 1;
    }
    bytes
}

#[test]
fn no_custodian_is_refused() {
    assert_eq!(require_custodians(0), Err(EnvelopeError::NoCustodiansAvailable));
}

#[test]
fn any_custodian_is_enough() {
    assert_eq!(require_custodians(1), Ok(()));
    assert_eq!(require_custodians(2), Ok(()));
    assert_eq!(require_custodians(u64::MAX), Ok(()));
}

#[test]
fn seal_without_custodians_encrypts_nothing() {
    assert_eq!(seal(b"a test cipher text", 61_000, 0), Err(EnvelopeError::NoCustodiansAvailable));
}

#[test]
fn seal_without_custodians_does_not_look_at_the_entropy() {
    let refused = Err(EnvelopeError::NoCustodiansAvailable);
    assert_eq!(seal_with_entropy(b"text", 61_000, 0, None), refused);
    assert_eq!(seal_with_entropy(b"text", 61_000, 0, Some(vec![0u8; 3])), refused);
    assert_eq!(seal_with_entropy(b"text", 61_000, 0, Some(counting_key_material())), refused);
}

#[test]
fn seal_fails_without_entropy() {
    assert_eq!(
        seal_with_entropy(b"text", 61_000, 1, None),
        Err(EnvelopeError::CryptoError(CryptoFailure::RandomSource))
    );
}

#[test]
fn seal_refuses_entropy_of_the_wrong_length() {
    assert_eq!(
        seal_with_entropy(b"text", 61_000, 1, Some(vec![0u8; 45])),
        Err(EnvelopeError::CryptoError(CryptoFailure::InvalidKeyLength))
    );
}

#[test]
fn seal_with_known_entropy_gives_the_known_content() {
    let sealed = seal_with_entropy(b"a test cipher text", 1000, 1, Some(counting_key_material()))
        .unwrap();
    assert_eq!(
        sealed.ciphertext,
        vec![
            0xb3u8, 0x1a, 0xd2, 0x15, 0x1f, 0xec, 0x3a, 0x6d, 0x73, 0x0c, 0x2a, 0xab, 0xb3, 0x38,
            0x80, 0x9c, 0xa8, 0x3d, 0x2b, 0x6d, 0xbc, 0x6e, 0xb7, 0x57, 0x1d, 0x88, 0x3e, 0x59,
            0x58, 0x14, 0x30, 0x99, 0x4c, 0xb9,
        ]
    );
    assert_eq!(sealed.release_time, 1000u64);
    assert_eq!(sealed.envelope.aes_private_key, counting_key_material());
    assert_eq!(sealed.envelope.hash, bind(&counting_key_material(), 1000));
}

#[test]
fn sealed_content_holds_together() {
    let release: u64 = release_time().unwrap();
    let sealed = seal(b"a test cipher text", release, 3).unwrap();
    assert_eq!(sealed.release_time, release);
    assert_eq!(sealed.ciphertext.len(), 18 + 16);
    assert_eq!(sealed.envelope.aes_private_key.len(), 44usize);
    assert_eq!(sealed.envelope.hash.len(), 32usize);
    assert_eq!(sealed.envelope.hash, bind(&sealed.envelope.aes_private_key, release));
    assert_eq!(sealed.envelope.encode().len(), 76usize);
    assert_eq!(
        decrypt(&sealed.ciphertext, &sealed.envelope.aes_private_key),
        Ok(b"a test cipher text".to_vec())
    );
}

#[test]
fn assemble_keeps_every_part() {
    let sealed = SealedContent {
        ciphertext: vec![1u8, 2, 3],
        release_time: 61_000,
        envelope: Sha256PrivateKeyHash { aes_private_key: vec![0u8; 44], hash: vec![0u8; 32] },
    };
    let pieces = vec![
        ShieldedKeyPiece { holder: vec![1u8; 32], shielded: vec![5u8; 384] },
        ShieldedKeyPiece { holder: vec![2u8; 32], shielded: vec![6u8; 384] },
    ];
    assert_eq!(
        assemble(sealed, pieces.clone()),
        Bundle { ciphertext: vec![1u8, 2, 3], release_time: 61_000, key_pieces: pieces }
    );
}

#[test]
fn whole_pipeline_with_answers_standing_in_for_the_custodians_keys() {
    let custodians = vec![
        Custodian { identity: vec![0x11u8; 32], public_key: vec![0xa1u8; 388] },
        Custodian { identity: vec![0x22u8; 32], public_key: vec![0xa2u8; 388] },
    ];
    require_custodians(2).unwrap();
    let release: u64 = release_time().unwrap();
    let sealed = seal(b"a test cipher text", release, 2).unwrap();
    let payload: Vec<u8> = sealed.envelope.encode();
    let mut progress = build(&sealed.envelope, custodians.clone());
    let pieces = loop {
        match progress {
            BuildProgress::Pending(builder, request) => {
                assert_eq!(request.payload, payload);
                let mut answer: Vec<u8> = vec![request.modulus[0]; 384];
                answer[..76].copy_from_slice(&request.payload);
                progress = builder.resume(Some(answer));
            }
            BuildProgress::Finished(result) => break result.unwrap(),
        }
    };
    let bundle = assemble(sealed.clone(), pieces);
    assert_eq!(bundle.ciphertext, sealed.ciphertext);
    assert_eq!(bundle.release_time, release);
    assert_eq!(bundle.key_pieces.len(), 2usize);
    assert_eq!(bundle.key_pieces[0].holder, vec![0x11u8; 32]);
    assert_eq!(bundle.key_pieces[1].holder, vec![0x22u8; 32]);
    assert_eq!(bundle.key_pieces[0].shielded[380], 0xa1u8);
    assert_eq!(bundle.key_pieces[1].shielded[380], 0xa2u8);
    let recovered = Sha256PrivateKeyHash::decode(&bundle.key_pieces[1].shielded[..76]).unwrap();
    assert_eq!(recovered, sealed.envelope);
    assert_eq!(bind(&recovered.aes_private_key, bundle.release_time), recovered.hash);
    assert_eq!(
        decrypt(&bundle.ciphertext, &recovered.aes_private_key),
        Ok(b"a test cipher text".to_vec())
    );
}
