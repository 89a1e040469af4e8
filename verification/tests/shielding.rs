use trex_envelope::distribution::build;
use trex_envelope::distribution::BuildProgress;
use trex_envelope::distribution::Custodian;
use trex_envelope::distribution::ShieldedKeyPiece;
use trex_envelope::error::EnvelopeError;
use trex_envelope::error::ShieldingFailure;
use trex_envelope::layout::Sha256PrivateKeyHash;
use trex_envelope::shield::accept_shielded;
use trex_envelope::shield::payload_request;
use trex_envelope::shield::shield_request;
use trex_envelope::shield::ShieldRequest;
use trex_envelope::shield::MAX_SHIELD_PAYLOAD;
use trex_envelope::shield::PUBLIC_KEY_SIZE;
use trex_envelope::shield::RSA3072_KEY_SIZE;
use trex_envelope::shield::RSA3072_PUB_EXP_SIZE;
use trex_envelope::shield::SHIELD_BLOCK_SIZE;

fn public_key(seed: u8) -> Vec<u8> {
    let mut bytes: Vec<u8> = Vec::new();
    let mut i: usize = 0;
    while i < 384 {
        bytes.push(((i % 251) as u8) ^ seed);
        i += 1;
    }
    bytes.extend_from_slice(&[1, 0, 1, 0]);
    bytes
}

fn custodian(seed: u8) -> Custodian {
    Custodian { identity: vec![seed; 32], public_key: public_key(seed) }
}

fn envelope() -> Sha256PrivateKeyHash {
    Sha256PrivateKeyHash { aes_private_key: vec![3u8; 44], hash: vec![4u8; 32] }
}

fn block(fill: u8) -> Vec<u8> {
    vec![fill; 384]
}

fn malformed() -> EnvelopeError {
    EnvelopeError::ShieldingError(ShieldingFailure::MalformedPublicKey)
}

fn too_large() -> EnvelopeError {
    EnvelopeError::ShieldingError(ShieldingFailure::PayloadTooLarge)
}

fn rejected() -> EnvelopeError {
    EnvelopeError::ShieldingError(ShieldingFailure::Rejected)
}

/// Answers each request with a block filled with the custodian's number.
fn run_to_the_end(mut progress: BuildProgress) -> (Result<Vec<ShieldedKeyPiece>, EnvelopeError>, u8) {
    let mut requests: u8 = 0;
    loop {
        match progress {
            BuildProgress::Pending(builder, _) => {
                progress = builder.resume(Some(block(requests)));
                requests += 1;
            }
            BuildProgress::Finished(result) => return (result, requests),
        }
    }
}

#[test]
fn shielding_sizes() {
    assert_eq!(RSA3072_KEY_SIZE, 384usize);
    assert_eq!(RSA3072_PUB_EXP_SIZE, 4usize);
    assert_eq!(PUBLIC_KEY_SIZE, 388usize);
    assert_eq!(SHIELD_BLOCK_SIZE, 384usize);
    assert_eq!(MAX_SHIELD_PAYLOAD, 384 - 2 * 32 - 2);
}

#[test]
fn request_takes_the_public_key_apart() {
    let request = shield_request(&envelope(), &public_key(0)).unwrap();
    assert_eq!(request.modulus, public_key(0)[..384].to_vec());
    assert_eq!(request.exponent, vec![1u8, 0, 1, 0]);
    assert_eq!(request.payload, envelope().encode());
    assert_eq!(request.payload.len(), 76usize);
}

#[test]
fn request_refuses_a_public_key_of_the_wrong_length() {
    assert_eq!(shield_request(&envelope(), &[]), Err(malformed()));
    assert_eq!(shield_request(&envelope(), &[0u8; 384]), Err(malformed()));
    assert_eq!(shield_request(&envelope(), &[0u8; 387]), Err(malformed()));
    assert_eq!(shield_request(&envelope(), &[0u8; 389]), Err(malformed()));
}

#[test]
fn request_refuses_a_payload_beyond_one_block() {
    assert!(payload_request(&[0u8; 318], &public_key(0)).is_ok());
    assert_eq!(payload_request(&[0u8; 319], &public_key(0)), Err(too_large()));
    let oversized = Sha256PrivateKeyHash { aes_private_key: vec![0u8; 300], hash: vec![0u8; 32] };
    assert_eq!(shield_request(&oversized, &public_key(0)), Err(too_large()));
}

#[test]
fn request_looks_at_the_public_key_first() {
    assert_eq!(payload_request(&[0u8; 319], &[0u8; 10]), Err(malformed()));
}

#[test]
fn request_carries_the_payload_unchanged() {
    let payload: Vec<u8> = vec![9u8, 8, 7];
    let request = payload_request(&payload, &public_key(5)).unwrap();
    assert_eq!(
        request,
        ShieldRequest {
            modulus: public_key(5)[..384].to_vec(),
            exponent: public_key(5)[384..].to_vec(),
            payload,
        }
    );
}

#[test]
fn answer_of_one_block_is_accepted() {
    assert_eq!(accept_shielded(76, Some(block(7))), Ok(block(7)));
    assert_eq!(accept_shielded(1, Some(block(7))), Ok(block(7)));
    assert_eq!(accept_shielded(318, Some(block(7))), Ok(block(7)));
}

#[test]
fn answer_of_another_length_is_rejected() {
    assert_eq!(accept_shielded(76, Some(vec![0u8; 383])), Err(rejected()));
    assert_eq!(accept_shielded(76, Some(vec![0u8; 385])), Err(rejected()));
    assert_eq!(accept_shielded(76, Some(vec![0u8; 768])), Err(rejected()));
    assert_eq!(accept_shielded(76, Some(Vec::new())), Err(rejected()));
}

#[test]
fn missing_answer_is_rejected() {
    assert_eq!(accept_shielded(76, None), Err(rejected()));
}

#[test]
fn empty_payload_comes_to_no_block() {
    assert_eq!(accept_shielded(0, Some(Vec::new())), Ok(Vec::new()));
    assert_eq!(accept_shielded(0, Some(block(1))), Err(rejected()));
}

#[test]
fn answer_for_an_oversized_payload_is_refused() {
    assert_eq!(accept_shielded(319, Some(vec![0u8; 768])), Err(too_large()));
    assert_eq!(accept_shielded(usize::MAX, None), Err(too_large()));
}

#[test]
fn build_without_custodians_is_finished_at_once() {
    match build(&envelope(), Vec::new()) {
        BuildProgress::Finished(result) => assert_eq!(result, Ok(Vec::new())),
        BuildProgress::Pending(_, _) => panic!("nothing to ask for"),
    }
}

#[test]
fn build_asks_for_the_first_custodian_first() {
    match build(&envelope(), vec![custodian(1), custodian(2)]) {
        BuildProgress::Pending(_, request) => {
            assert_eq!(request.modulus, public_key(1)[..384].to_vec());
            assert_eq!(request.exponent, public_key(1)[384..].to_vec());
            assert_eq!(request.payload, envelope().encode());
        }
        BuildProgress::Finished(_) => panic!("two custodians are waiting"),
    }
}

#[test]
fn build_asks_for_each_custodian_in_order() {
    let mut progress = build(&envelope(), vec![custodian(1), custodian(2), custodian(3)]);
    let mut seed: u8 = 1;
    loop {
        match progress {
            BuildProgress::Pending(builder, request) => {
                assert_eq!(request.modulus, public_key(seed)[..384].to_vec());
                progress = builder.resume(Some(block(seed)));
                seed += 1;
            }
            BuildProgress::Finished(result) => {
                assert!(result.is_ok());
                break;
            }
        }
    }
    assert_eq!(seed, 4u8);
}

#[test]
fn build_gives_one_piece_for_each_custodian_in_order() {
    let mut count: u8 = 1;
    while count <= 5 {
        let mut custodians: Vec<Custodian> = Vec::new();
        let mut seed: u8 = 0;
        while seed < count {
            custodians.push(custodian(seed + 10));
            seed += 1;
        }
        let (result, requests) = run_to_the_end(build(&envelope(), custodians.clone()));
        let pieces = result.unwrap();
        assert_eq!(requests, count);
        assert_eq!(pieces.len(), custodians.len());
        let mut i: usize = 0;
        while i < pieces.len() {
            assert_eq!(pieces[i].holder, custodians[i].identity);
            assert_eq!(pieces[i].shielded, block(i as u8));
            i += 1;
        }
        count += 1;
    }
}

#[test]
fn build_pairs_identity_and_ciphertext() {
    let (result, _) = run_to_the_end(build(&envelope(), vec![custodian(7)]));
    assert_eq!(
        result,
        Ok(vec![ShieldedKeyPiece { holder: vec![7u8; 32], shielded: block(0) }])
    );
}

#[test]
fn build_fails_on_the_first_malformed_key_before_asking() {
    let mut broken = custodian(1);
    broken.public_key.pop();
    match build(&envelope(), vec![broken, custodian(2)]) {
        BuildProgress::Finished(result) => assert_eq!(result, Err(malformed())),
        BuildProgress::Pending(_, _) => panic!("the first key is malformed"),
    }
}

#[test]
fn build_fails_on_a_later_malformed_key_and_hands_out_nothing() {
    let mut broken = custodian(2);
    broken.public_key.push(0);
    let (result, requests) =
        run_to_the_end(build(&envelope(), vec![custodian(1), broken, custodian(3)]));
    assert_eq!(result, Err(malformed()));
    assert_eq!(requests, 1u8);
}

#[test]
fn build_fails_on_an_oversized_envelope() {
    let oversized = Sha256PrivateKeyHash { aes_private_key: vec![0u8; 44], hash: vec![0u8; 275] };
    match build(&oversized, vec![custodian(1)]) {
        BuildProgress::Finished(result) => assert_eq!(result, Err(too_large())),
        BuildProgress::Pending(_, _) => panic!("the payload does not fit"),
    }
}

#[test]
fn build_fails_fast_on_a_rejected_answer() {
    let progress = build(&envelope(), vec![custodian(1), custodian(2), custodian(3)]);
    let progress = match progress {
        BuildProgress::Pending(builder, _) => builder.resume(Some(block(1))),
        BuildProgress::Finished(_) => panic!("three custodians are waiting"),
    };
    let progress = match progress {
        BuildProgress::Pending(builder, _) => builder.resume(None),
        BuildProgress::Finished(_) => panic!("two custodians are waiting"),
    };
    match progress {
        BuildProgress::Finished(result) => assert_eq!(result, Err(rejected())),
        BuildProgress::Pending(_, _) => panic!("the work has failed"),
    }
}

#[test]
fn build_rejects_an_answer_of_the_wrong_length() {
    match build(&envelope(), vec![custodian(1)]) {
        BuildProgress::Pending(builder, _) => match builder.resume(Some(vec![0u8; 256])) {
            BuildProgress::Finished(result) => assert_eq!(result, Err(rejected())),
            BuildProgress::Pending(_, _) => panic!("the work has failed"),
        },
        BuildProgress::Finished(_) => panic!("one custodian is waiting"),
    }
}
