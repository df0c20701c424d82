//! The proof-backend contract: the abstract capability a concrete
//! zero-knowledge proving system must implement, together with the
//! opaque artifacts it produces and consumes.

use vstd::prelude::*;
use crate::encodings::{ActiveEncodings, Encoding, EncodingPair, FullEncodings};

verus! {

/// A binding digest over one (plaintext, active encodings) pair,
/// produced by a `ProverBackend` and checked by a `VerifierBackend`.
/// Its words are opaque to the protocol core.
pub struct Commitment {
    pub data: Vec<u128>,
}

impl View for Commitment {
    type V = Seq<u128>;

    open spec fn view(&self) -> Seq<u128> {
        self.data@
    }
}

/// One zero-knowledge proof over one committed batch entry. Its words
/// are opaque to the protocol core.
pub struct Proof {
    pub data: Vec<u128>,
}

impl View for Proof {
    type V = Seq<u128>;

    open spec fn view(&self) -> Seq<u128> {
        self.data@
    }
}

/// The proofs for a whole committed batch, in batch order.
pub struct ProofSet {
    pub proofs: Vec<Proof>,
}

/// Opaque, backend-defined public parameters from which a one-time
/// setup derives the two keys.
pub struct PublicParams {
    pub data: Vec<u8>,
}

impl View for PublicParams {
    type V = Seq<u8>;

    open spec fn view(&self) -> Seq<u8> {
        self.data@
    }
}

/// Opaque, backend-defined key material held by the Prover.
pub struct ProvingKey {
    pub data: Vec<u8>,
}

impl View for ProvingKey {
    type V = Seq<u8>;

    open spec fn view(&self) -> Seq<u8> {
        self.data@
    }
}

/// Opaque, backend-defined key material held by the Verifier.
pub struct VerificationKey {
    pub data: Vec<u8>,
}

impl View for VerificationKey {
    type V = Seq<u8>;

    open spec fn view(&self) -> Seq<u8> {
        self.data@
    }
}

/// A backend failed to compute a commitment or a proof. Fatal for the
/// session: the protocol maps it to the failing phase's error and the
/// session must restart from fresh commitments.
#[derive(Clone, Copy, PartialEq, Eq, Structural, Debug)]
pub enum BackendError {
    CommitmentFailed,
    ProofGenerationFailed,
}

/// The Prover-side backend capability. `commit_ok` and `proof_ok` say on
/// which inputs the backend succeeds, `commitment_spec` and `proof_spec`
/// what it then produces; a conforming backend's proofs for entries that
/// genuinely satisfy the encoding relation must be accepted by the
/// matching `VerifierBackend`, and it must refuse to prove entries that
/// do not satisfy it.
pub trait ProverBackend: Sized {
    /// The digest this backend commits to for the given pair.
    spec fn commitment_spec(&self, plaintext: Seq<u8>, encodings: Seq<Encoding>) -> Seq<u128>;

    /// On which pairs `commit` succeeds.
    spec fn commit_ok(&self, plaintext: Seq<u8>, encodings: Seq<Encoding>) -> bool;

    /// The proof this backend produces for the given entry.
    spec fn proof_spec(&self, plaintext: Seq<u8>, encodings: Seq<Encoding>, full: Seq<EncodingPair>) -> Seq<u128>;

    /// On which entries `prove` succeeds.
    spec fn proof_ok(&self, plaintext: Seq<u8>, encodings: Seq<Encoding>, full: Seq<EncodingPair>) -> bool;

    /// Binds one (plaintext, active encodings) pair into a commitment.
    fn commit(&self, plaintext: &Vec<u8>, encodings: &ActiveEncodings) -> (r: Result<Commitment, BackendError>)
        ensures
            r is Ok <==> self.commit_ok(plaintext@, encodings@),
            r matches Ok(c) ==> c@ == self.commitment_spec(plaintext@, encodings@),
    ;

    /// Produces a proof that the committed pair satisfies the encoding
    /// relation against the given full encoding set.
    fn prove(&self, plaintext: &Vec<u8>, encodings: &ActiveEncodings, full: &FullEncodings) -> (r: Result<Proof, BackendError>)
        ensures
            r is Ok <==> self.proof_ok(plaintext@, encodings@, full@),
            r matches Ok(p) ==> p@ == self.proof_spec(plaintext@, encodings@, full@),
    ;
}

/// The Verifier-side backend capability. `accepts` is the backend's
/// acceptance predicate; a conforming backend accepts every honestly
/// generated proof and rejects proofs of false statements.
pub trait VerifierBackend: Sized {
    /// Whether this backend accepts the proof for the given commitment
    /// and full encoding set.
    spec fn accepts(&self, proof: Seq<u128>, commitment: Seq<u128>, full: Seq<EncodingPair>) -> bool;

    /// Checks one proof against one commitment and its full encoding
    /// set; returns the backend's accept/reject verdict.
    fn verify(&self, proof: &Proof, commitment: &Commitment, full: &FullEncodings) -> (r: bool)
        ensures
            r == self.accepts(proof@, commitment@, full@),
    ;
}

} // verus!
