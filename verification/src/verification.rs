//! The Verifier role: a phase-ordered state machine that receives the
//! Prover's commitments together with the full encoding sets it holds,
//! hands the Prover its verification obligations, and finally accepts
//! or rejects the Prover's proof set.
//!
//! Each phase consumes its state by value and returns the next state,
//! so phases cannot be skipped, repeated, or reordered.

use vstd::prelude::*;
use crate::backend::{Commitment, ProofSet, Proof, VerifierBackend};
use crate::encodings::FullEncodings;
use crate::prover::InitData;

verus! {

/// Errors and rejections of the Verifier's phases.
#[derive(Clone, Copy, PartialEq, Eq, Structural, Debug)]
pub enum VerifierError {
    /// The commitment list and the full encoding list handed to
    /// `receive_commitments` differ in length.
    MismatchedBatchSize,
    /// The backend rejected the proof set. This is the expected outcome
    /// for a false claim: a protocol-level "not authenticated" result,
    /// not a fault of the software.
    VerificationRejected,
}

/// The Verifier's output after receiving commitments: the obligations
/// the Prover must discharge — one full encoding set per committed
/// entry, in the original batch order — together with the agreed
/// side-channel payload. Consumed exactly once, by the Prover's check
/// phase.
pub struct VerificationData {
    pub full_encodings: Vec<FullEncodings>,
    pub init_data: InitData,
}

/// Whether the verify phase accepts: one proof per commitment, and the
/// backend accepts every proof against its commitment and full
/// encoding set.
pub open spec fn verify_passes<B: VerifierBackend>(backend: B, proofs: Seq<Proof>, commitments: Seq<Commitment>, fulls: Seq<FullEncodings>) -> bool {
    &&& proofs.len() == commitments.len()
    &&& commitments.len() == fulls.len()
    &&& forall|i: int| 0 <= i < proofs.len() ==> #[trigger] backend.accepts(proofs[i]@, commitments[i]@, fulls[i]@)
}

/// The Verifier in its initial phase, before any commitments arrived.
pub struct Verifier<B: VerifierBackend> {
    backend: B,
}

impl<B: VerifierBackend> Verifier<B> {
    /// The backend this Verifier checks proofs with.
    pub closed spec fn backend(&self) -> B {
        self.backend
    }

    pub fn new(backend: B) -> (r: Verifier<B>)
        ensures
            r.backend() == backend,
    {
        Verifier { backend }
    }

    /// Receives the Prover's commitments and pairs each, in batch
    /// order, with the full encoding set the Verifier holds for it;
    /// returns the verification data the Prover must consume, and
    /// advances the Verifier to its received phase. Lists of unequal
    /// length are rejected with `MismatchedBatchSize`.
    ///
    /// Ordering is a protocol invariant: the lists must be in the same
    /// order as the original commit batch; it is not re-derived here.
    pub fn receive_commitments(self, commitments: Vec<Commitment>, full_encodings_list: Vec<FullEncodings>, init_data: InitData) -> (r: Result<(VerifierReceived<B>, VerificationData), VerifierError>)
        ensures
            r is Ok <==> commitments@.len() == full_encodings_list@.len(),
            r matches Ok((v, vd)) ==> ({
                &&& v.backend() == self.backend()
                &&& v.commitments() == commitments@
                &&& v.full().len() == full_encodings_list@.len()
                &&& forall|i: int| 0 <= i < full_encodings_list@.len()
                    ==> (#[trigger] v.full()[i])@ == full_encodings_list@[i]@
                &&& vd.full_encodings == full_encodings_list
                &&& vd.init_data@ == init_data@
            }),
            r is Err ==> (r matches Err(e) && e == VerifierError::MismatchedBatchSize),
    {
        if commitments.len() != full_encodings_list.len() {
            return Err(VerifierError::MismatchedBatchSize);
        }
        let mut kept: Vec<FullEncodings> = Vec::new();
        let mut i: usize = 0;
        while i < full_encodings_list.len()
            invariant
                i <= full_encodings_list@.len(),
                kept@.len() == i,
                forall|k: int| 0 <= k < i ==> (#[trigger] kept@[k])@ == full_encodings_list@[k]@,
            decreases full_encodings_list.len() - i,
        {
            kept.push(full_encodings_list[i].clone());
            i += 1;
        }
        let received = VerifierReceived { backend: self.backend, commitments, full_encodings: kept };
        let verification_data = VerificationData { full_encodings: full_encodings_list, init_data };
        Ok((received, verification_data))
    }
}

/// The Verifier after receiving commitments: it retains the commitments
/// and the full encoding sets, and the only next step is verification.
pub struct VerifierReceived<B: VerifierBackend> {
    backend: B,
    commitments: Vec<Commitment>,
    full_encodings: Vec<FullEncodings>,
}

impl<B: VerifierBackend> VerifierReceived<B> {
    pub closed spec fn backend(&self) -> B {
        self.backend
    }

    /// The commitments received, in batch order.
    pub closed spec fn commitments(&self) -> Seq<Commitment> {
        self.commitments@
    }

    /// The full encoding sets paired with the commitments, in batch
    /// order.
    pub closed spec fn full(&self) -> Seq<FullEncodings> {
        self.full_encodings@
    }

    /// Checks the Prover's proof set against the retained commitments
    /// and full encoding sets; on acceptance the Verifier reaches its
    /// terminal accepted phase. A proof set with the wrong number of
    /// proofs, or any proof the backend rejects, yields
    /// `VerificationRejected`: the claim is not authenticated.
    pub fn verify(self, proof_set: ProofSet) -> (r: Result<VerifierAccepted, VerifierError>)
        ensures
            r is Ok <==> verify_passes(self.backend(), proof_set.proofs@, self.commitments(), self.full()),
            r is Err ==> (r matches Err(e) && e == VerifierError::VerificationRejected),
    {
        if proof_set.proofs.len() != self.commitments.len() || self.commitments.len() != self.full_encodings.len() {
            return Err(VerifierError::VerificationRejected);
        }
        let mut i: usize = 0;
        while i < proof_set.proofs.len()
            invariant
                i <= proof_set.proofs@.len(),
                proof_set.proofs@.len() == self.commitments().len(),
                self.commitments().len() == self.full().len(),
                forall|k: int| 0 <= k < i
                    ==> #[trigger] self.backend().accepts(proof_set.proofs@[k]@, self.commitments()[k]@, self.full()[k]@),
            decreases proof_set.proofs.len() - i,
        {
            let accepted = self.backend.verify(&proof_set.proofs[i], &self.commitments[i], &self.full_encodings[i]);
            if !accepted {
                return Err(VerifierError::VerificationRejected);
            }
            i += 1;
        }
        Ok(VerifierAccepted {})
    }
}

/// The Verifier's terminal accepted phase: the proof set discharged all
/// obligations and the Prover's claim is authenticated.
pub struct VerifierAccepted {}

} // verus!
