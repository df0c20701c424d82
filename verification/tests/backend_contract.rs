use authdecode::backend::{
    BackendError, Commitment, Proof, ProverBackend, VerifierBackend,
};
use authdecode::encodings::{ActiveEncodings, Encoding, EncodingPair, FullEncodings};
use authdecode::mock::{MockOneTimeSetup, MockProverBackend, MockVerifierBackend};
use authdecode::prover::{Prover, ProverError};
use authdecode::utils::u8vec_to_boolvec;

fn pair(zero: u128, one: u128) -> EncodingPair {
    EncodingPair::new(Encoding::new(zero), Encoding::new(one))
}

fn one_byte_full() -> FullEncodings {
    FullEncodings::new((0..8).map(|i| pair(10 + 2 * i, 11 + 2 * i)).collect()).unwrap()
}

/// A backend that can never commit or prove; exercises the protocol's
/// mapping of backend failures to phase errors.
struct FailingBackend;

impl ProverBackend for FailingBackend {
    // the contract's ghost items; never called at run time
    fn commitment_spec(&self, _: vstd::seq::Seq<u8>, _: vstd::seq::Seq<Encoding>) -> vstd::seq::Seq<u128> {
        unreachable!()
    }

    fn commit_ok(&self, _: vstd::seq::Seq<u8>, _: vstd::seq::Seq<Encoding>) -> bool {
        unreachable!()
    }

    fn proof_spec(
        &self,
        _: vstd::seq::Seq<u8>,
        _: vstd::seq::Seq<Encoding>,
        _: vstd::seq::Seq<EncodingPair>,
    ) -> vstd::seq::Seq<u128> {
        unreachable!()
    }

    fn proof_ok(
        &self,
        _: vstd::seq::Seq<u8>,
        _: vstd::seq::Seq<Encoding>,
        _: vstd::seq::Seq<EncodingPair>,
    ) -> bool {
        unreachable!()
    }

    fn commit(
        &self,
        _plaintext: &Vec<u8>,
        _encodings: &ActiveEncodings,
    ) -> Result<Commitment, BackendError> {
        Err(BackendError::CommitmentFailed)
    }

    fn prove(
        &self,
        _plaintext: &Vec<u8>,
        _encodings: &ActiveEncodings,
        _full: &FullEncodings,
    ) -> Result<Proof, BackendError> {
        Err(BackendError::ProofGenerationFailed)
    }
}

#[test]
fn backend_commit_failure_is_commitment_error() {
    let full = one_byte_full();
    let plaintext = vec![0x0Fu8];
    let active = full.encode(&u8vec_to_boolvec(&plaintext)).unwrap();
    let prover = Prover::new(FailingBackend);
    let r = prover.commit(vec![(plaintext, active)]);
    assert!(matches!(r, Err(ProverError::CommitmentError)));
}

#[test]
fn mock_backend_refuses_wrong_selection() {
    let full = one_byte_full();
    let plaintext = vec![0x00u8];
    // all bits are 0, but hand the backend the `one` members
    let wrong = ActiveEncodings::new(full.pairs().iter().map(|p| p.one).collect());
    let params = MockOneTimeSetup::params();
    let backend = MockProverBackend::new(MockOneTimeSetup::proving_key(&params));
    let r = backend.prove(&plaintext, &wrong, &full);
    assert!(matches!(r, Err(BackendError::ProofGenerationFailed)));
}

#[test]
fn mock_backend_proves_honest_selection() {
    let full = one_byte_full();
    let plaintext = vec![0xC4u8];
    let active = full.encode(&u8vec_to_boolvec(&plaintext)).unwrap();
    let params = MockOneTimeSetup::params();
    let backend = MockProverBackend::new(MockOneTimeSetup::proving_key(&params));
    let proof = backend.prove(&plaintext, &active, &full).unwrap();
    let commitment = backend.commit(&plaintext, &active).unwrap();
    assert_eq!(proof.data, commitment.data);
}

#[test]
fn mock_verifier_backend_compares_words() {
    let full = one_byte_full();
    let params = MockOneTimeSetup::params();
    let backend = MockVerifierBackend::new(MockOneTimeSetup::verification_key(&params));
    let commitment = Commitment { data: vec![1, 2, 3] };
    assert!(backend.verify(&Proof { data: vec![1, 2, 3] }, &commitment, &full));
    assert!(!backend.verify(&Proof { data: vec![1, 2, 4] }, &commitment, &full));
    assert!(!backend.verify(&Proof { data: vec![1, 2] }, &commitment, &full));
}
