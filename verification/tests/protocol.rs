use authdecode::backend::{Commitment, ProofSet};
use authdecode::encodings::{ActiveEncodings, Encoding, EncodingPair, FullEncodings};
use authdecode::mock::{
    DummyEncodingsVerifier, MockOneTimeSetup, MockProverBackend, MockVerifierBackend,
    RejectingEncodingsVerifier,
};
use authdecode::prover::{InitData, Prover, ProverError};
use authdecode::utils::u8vec_to_boolvec;
use authdecode::verification::{Verifier, VerifierError};

use rand::{Rng, SeedableRng};
use rand_chacha::ChaCha12Rng;

fn pair(zero: u128, one: u128) -> EncodingPair {
    EncodingPair::new(Encoding::new(zero), Encoding::new(one))
}

/// A full encoding set for `n` bytes of plaintext, with distinct labels
/// derived from `salt`.
fn full_for(n: usize, salt: u128) -> FullEncodings {
    let pairs: Vec<EncodingPair> = (0..8 * n as u128)
        .map(|i| pair(salt + 2 * i, salt + 2 * i + 1))
        .collect();
    FullEncodings::new(pairs).unwrap()
}

fn mock_prover() -> Prover<MockProverBackend> {
    let params = MockOneTimeSetup::params();
    let pk = MockOneTimeSetup::proving_key(&params);
    Prover::new(MockProverBackend::new(pk))
}

fn mock_verifier() -> Verifier<MockVerifierBackend> {
    let params = MockOneTimeSetup::params();
    let vk = MockOneTimeSetup::verification_key(&params);
    Verifier::new(MockVerifierBackend::new(vk))
}

/// Runs all five phases over the given batch and full encoding sets.
fn run_session(
    batch: Vec<(Vec<u8>, ActiveEncodings)>,
    fulls: Vec<FullEncodings>,
    init: Vec<u8>,
) -> Result<(), String> {
    let prover = mock_prover();
    let verifier = mock_verifier();
    let (prover, commitments) = prover.commit(batch).map_err(|e| format!("{:?}", e))?;
    let (verifier, vd) = verifier
        .receive_commitments(commitments, fulls, InitData::new(init))
        .map_err(|e| format!("{:?}", e))?;
    let prover = prover
        .check(vd, DummyEncodingsVerifier {})
        .map_err(|e| format!("{:?}", e))?;
    let (_prover, proof_set) = prover.prove().map_err(|e| format!("{:?}", e))?;
    verifier.verify(proof_set).map_err(|e| format!("{:?}", e))?;
    Ok(())
}

#[test]
fn completeness_single_entry() {
    let plaintext = vec![0xA5u8, 0x01, 0xFF];
    let full = full_for(plaintext.len(), 10_000);
    let active = full.encode(&u8vec_to_boolvec(&plaintext)).unwrap();
    let r = run_session(vec![(plaintext, active)], vec![full], vec![7u8; 4]);
    assert!(r.is_ok());
}

#[test]
fn completeness_batch_of_three() {
    let mut batch = Vec::new();
    let mut fulls = Vec::new();
    for (i, pt) in [vec![1u8, 2], vec![3u8], vec![0u8, 0, 0]].into_iter().enumerate() {
        let full = full_for(pt.len(), 1_000_000 * (i as u128 + 1));
        let active = full.encode(&u8vec_to_boolvec(&pt)).unwrap();
        batch.push((pt, active));
        fulls.push(full);
    }
    assert!(run_session(batch, fulls, vec![1u8; 8]).is_ok());
}

#[test]
fn soundness_flipped_encoding_never_accepted() {
    let plaintext = vec![0x5Au8, 0x33];
    let full = full_for(plaintext.len(), 500);
    let mut active = full.encode(&u8vec_to_boolvec(&plaintext)).unwrap();
    // flip bit position 5 to the wrong member of its pair
    let bit5 = u8vec_to_boolvec(&plaintext)[5];
    let p = full.pairs()[5];
    active.encodings[5] = if bit5 { p.zero } else { p.one };
    let r = run_session(vec![(plaintext, active)], vec![full], vec![0u8]);
    assert_eq!(r, Err(format!("{:?}", ProverError::ProofGenerationError)));
}

#[test]
fn batch_reorder_fails_for_mismatched_entries() {
    let pt_a = vec![0x0Fu8];
    let pt_b = vec![0xF0u8];
    let full_a = full_for(1, 40);
    let full_b = full_for(1, 4_000);
    let active_a = full_a.encode(&u8vec_to_boolvec(&pt_a)).unwrap();
    let active_b = full_b.encode(&u8vec_to_boolvec(&pt_b)).unwrap();
    // the full encoding lists are handed over in the wrong order
    let r = run_session(
        vec![(pt_a, active_a), (pt_b, active_b)],
        vec![full_b, full_a],
        vec![0u8],
    );
    assert!(r.is_err());
}

#[test]
fn commit_empty_batch_is_input_shape_error() {
    let prover = mock_prover();
    let r = prover.commit(Vec::new());
    assert!(matches!(r, Err(ProverError::InputShapeError)));
}

#[test]
fn commit_shape_mismatch_is_input_shape_error() {
    let prover = mock_prover();
    let full = full_for(1, 9);
    // seven active encodings for an eight-bit plaintext
    let active = ActiveEncodings::new((0..7).map(|i| Encoding::new(i)).collect());
    let r = prover.commit(vec![(vec![0xAAu8], active)]);
    assert!(matches!(r, Err(ProverError::InputShapeError)));
    drop(full);
}

#[test]
fn receive_commitments_mismatched_batch_size() {
    let plaintext = vec![1u8];
    let full = full_for(1, 77);
    let active = full.encode(&u8vec_to_boolvec(&plaintext)).unwrap();
    let (_prover, commitments) = mock_prover().commit(vec![(plaintext, active)]).unwrap();
    let r = mock_verifier().receive_commitments(
        commitments,
        vec![full.clone(), full],
        InitData::new(vec![0u8]),
    );
    assert!(matches!(r, Err(VerifierError::MismatchedBatchSize)));
}

#[test]
fn rejecting_encoding_verifier_gates_check() {
    let plaintext = vec![0x42u8];
    let full = full_for(1, 300);
    let active = full.encode(&u8vec_to_boolvec(&plaintext)).unwrap();
    let (prover, commitments) = mock_prover().commit(vec![(plaintext, active)]).unwrap();
    let (_verifier, vd) = mock_verifier()
        .receive_commitments(commitments, vec![full], InitData::new(vec![0u8]))
        .unwrap();
    // the check phase fails and consumes the prover state: no prove can follow
    let r = prover.check(vd, RejectingEncodingsVerifier {});
    assert!(matches!(r, Err(ProverError::EncodingVerificationFailed)));
}

#[test]
fn mock_commitment_digest_is_plaintext_then_encodings() {
    let plaintext = vec![1u8, 2];
    let full = full_for(plaintext.len(), 1_000);
    let active = full.encode(&u8vec_to_boolvec(&plaintext)).unwrap();
    let expected: Vec<u128> = plaintext
        .iter()
        .map(|b| *b as u128)
        .chain(active.encodings.iter().map(|e| e.value))
        .collect();
    let (_prover, commitments) = mock_prover().commit(vec![(plaintext, active)]).unwrap();
    assert_eq!(commitments.len(), 1);
    assert_eq!(commitments[0].data, expected);
}

#[test]
fn verify_rejects_wrong_proof_count() {
    let plaintext = vec![9u8];
    let full = full_for(1, 60);
    let active = full.encode(&u8vec_to_boolvec(&plaintext)).unwrap();
    let (_prover, commitments) = mock_prover().commit(vec![(plaintext, active)]).unwrap();
    let (verifier, _vd) = mock_verifier()
        .receive_commitments(commitments, vec![full], InitData::new(vec![0u8]))
        .unwrap();
    let r = verifier.verify(ProofSet { proofs: Vec::new() });
    assert!(matches!(r, Err(VerifierError::VerificationRejected)));
}

#[test]
fn verify_rejects_tampered_proof() {
    let plaintext = vec![0x77u8];
    let full = full_for(1, 800);
    let active = full.encode(&u8vec_to_boolvec(&plaintext)).unwrap();
    let (prover, commitments) = mock_prover().commit(vec![(plaintext, active)]).unwrap();
    let (verifier, vd) = mock_verifier()
        .receive_commitments(commitments, vec![full], InitData::new(vec![0u8]))
        .unwrap();
    let prover = prover.check(vd, DummyEncodingsVerifier {}).unwrap();
    let (_prover, mut proof_set) = prover.prove().unwrap();
    proof_set.proofs[0].data[0] ^= 1;
    let r = verifier.verify(proof_set);
    assert!(matches!(r, Err(VerifierError::VerificationRejected)));
}

#[test]
fn tampered_commitment_never_accepted() {
    let plaintext = vec![0x13u8];
    let full = full_for(1, 220);
    let active = full.encode(&u8vec_to_boolvec(&plaintext)).unwrap();
    let (prover, commitments) = mock_prover().commit(vec![(plaintext, active)]).unwrap();
    let tampered: Vec<Commitment> = commitments
        .into_iter()
        .map(|mut c| {
            c.data[0] ^= 0xFF;
            c
        })
        .collect();
    let (verifier, vd) = mock_verifier()
        .receive_commitments(tampered, vec![full], InitData::new(vec![0u8]))
        .unwrap();
    let prover = prover.check(vd, DummyEncodingsVerifier {}).unwrap();
    let (_prover, proof_set) = prover.prove().unwrap();
    let r = verifier.verify(proof_set);
    assert!(matches!(r, Err(VerifierError::VerificationRejected)));
}

#[test]
fn setup_runs_are_interchangeable() {
    // keys taken from two separate setup runs on identical parameters
    let params1 = MockOneTimeSetup::params();
    let params2 = MockOneTimeSetup::params();
    let pk = MockOneTimeSetup::proving_key(&params1);
    let vk = MockOneTimeSetup::verification_key(&params2);
    let prover = Prover::new(MockProverBackend::new(pk));
    let verifier = Verifier::new(MockVerifierBackend::new(vk));

    let plaintext = vec![0xC3u8];
    let full = full_for(1, 5);
    let active = full.encode(&u8vec_to_boolvec(&plaintext)).unwrap();
    let (prover, commitments) = prover.commit(vec![(plaintext, active)]).unwrap();
    let (verifier, vd) = verifier
        .receive_commitments(commitments, vec![full], InitData::new(vec![0u8]))
        .unwrap();
    let prover = prover.check(vd, DummyEncodingsVerifier {}).unwrap();
    let (_prover, proof_set) = prover.prove().unwrap();
    assert!(verifier.verify(proof_set).is_ok());
}

#[test]
fn deterministic_demo_session_accepted() {
    // 1000 pseudorandom plaintext bytes and 8000 pseudorandom encoding
    // pairs from a fixed seed; init data is 100 bytes of value 1
    let mut rng = ChaCha12Rng::from_seed([0u8; 32]);
    let plaintext: Vec<u8> = (0..1000).map(|_| rng.gen::<u8>()).collect();
    let pairs: Vec<EncodingPair> = (0..8000)
        .map(|_| {
            let p = rng.gen::<[u128; 2]>();
            pair(p[0], p[1])
        })
        .collect();
    let full = FullEncodings::new(pairs).unwrap();
    let active = full.encode(&u8vec_to_boolvec(&plaintext)).unwrap();
    let r = run_session(vec![(plaintext, active)], vec![full], vec![1u8; 100]);
    assert!(r.is_ok());
}
