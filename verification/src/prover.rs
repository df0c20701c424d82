//! The Prover role: a phase-ordered state machine that commits to a
//! batch of (plaintext, active encodings) pairs, checks the Verifier's
//! claimed full encodings through a caller-supplied trust capability,
//! and produces a proof set over the committed batch.
//!
//! Each phase consumes its state by value and returns the next state,
//! so phases cannot be skipped, repeated, or reordered; a failed phase
//! returns no next state and the session must restart.

use vstd::prelude::*;
use crate::backend::{Commitment, Proof, ProofSet, ProverBackend};
use crate::encodings::{ActiveEncodings, EncodingPair, FullEncodings};
use crate::verification::VerificationData;

verus! {

/// An opaque side-channel payload both roles must agree on before
/// verification; it is handed to the encoding verifier's `init` hook.
pub struct InitData {
    data: Vec<u8>,
}

impl View for InitData {
    type V = Seq<u8>;

    closed spec fn view(&self) -> Seq<u8> {
        self.data@
    }
}

impl InitData {
    pub fn new(data: Vec<u8>) -> (r: InitData)
        ensures
            r@ == data@,
    {
        InitData { data }
    }

    pub fn bytes(&self) -> (r: &Vec<u8>)
        ensures
            r@ == self@,
    {
        &self.data
    }
}

/// The externally-supplied trust check rejected a full encoding set.
#[derive(Clone, Copy, PartialEq, Eq, Structural, Debug)]
pub struct EncodingVerifierError {}

/// The capability by which the Prover confirms, by whatever external
/// means the deployment trusts, that the full encodings the Verifier
/// claims to hold are authentic. `accepts` is the implementation's
/// acceptance predicate; `verify` must return `Ok` exactly on the sets
/// it accepts.
pub trait EncodingVerifier: Sized {
    /// Which full encoding sets this implementation accepts.
    spec fn accepts(&self, full: Seq<EncodingPair>) -> bool;

    /// Receives the side-channel payload agreed between the roles.
    fn init(&self, init_data: &InitData);

    /// Checks one full encoding set.
    fn verify(&self, full: &FullEncodings) -> (r: Result<(), EncodingVerifierError>)
        ensures
            r is Ok <==> self.accepts(full@),
    ;
}

/// Errors of the Prover's phases.
#[derive(Clone, Copy, PartialEq, Eq, Structural, Debug)]
pub enum ProverError {
    /// A length mismatch between plaintext bits, encodings, or batch
    /// entries, caught before any cryptographic work.
    InputShapeError,
    /// The backend failed to compute a commitment; fatal for the session.
    CommitmentError,
    /// The encoding verifier rejected a claimed full encoding set; the
    /// session must be aborted.
    EncodingVerificationFailed,
    /// The backend failed to produce a proof; fatal for the session.
    ProofGenerationError,
}

/// One batch entry is well-shaped when it carries one active encoding
/// per plaintext bit.
pub open spec fn entry_shape_ok(entry: (Vec<u8>, ActiveEncodings)) -> bool {
    entry.1@.len() == entry.0@.len() * 8
}

/// A batch is well-shaped when it is non-empty and every entry is.
pub open spec fn batch_shape_ok(batch: Seq<(Vec<u8>, ActiveEncodings)>) -> bool {
    &&& batch.len() > 0
    &&& forall|i: int| 0 <= i < batch.len() ==> entry_shape_ok(#[trigger] batch[i])
}

/// Whether the backend can commit to every entry of the batch.
pub open spec fn batch_commit_ok<B: ProverBackend>(backend: B, batch: Seq<(Vec<u8>, ActiveEncodings)>) -> bool {
    forall|i: int| 0 <= i < batch.len() ==> #[trigger] backend.commit_ok(batch[i].0@, batch[i].1@)
}

/// Whether the check phase passes: the Verifier supplied one full
/// encoding set per batch entry and the encoding verifier accepts each.
pub open spec fn check_passes<V: EncodingVerifier>(verifier: V, fulls: Seq<FullEncodings>, batch_len: int) -> bool {
    &&& fulls.len() == batch_len
    &&& forall|i: int| 0 <= i < fulls.len() ==> #[trigger] verifier.accepts(fulls[i]@)
}

/// Whether the prove phase passes: the backend can prove every entry
/// against its full encoding set.
pub open spec fn prove_passes<B: ProverBackend>(backend: B, batch: Seq<(Vec<u8>, ActiveEncodings)>, fulls: Seq<FullEncodings>) -> bool {
    &&& fulls.len() == batch.len()
    &&& forall|i: int| 0 <= i < batch.len() ==> #[trigger] backend.proof_ok(batch[i].0@, batch[i].1@, fulls[i]@)
}

proof fn lemma_mul8_divmod(enc: int, pt: int)
    requires
        enc >= 0,
        pt >= 0,
    ensures
        (enc % 8 == 0 && enc / 8 == pt) <==> enc == pt * 8,
{
    vstd::arithmetic::div_mod::lemma_fundamental_div_mod(enc, 8);
    if enc == pt * 8 {
        vstd::arithmetic::div_mod::lemma_mod_multiples_basic(pt, 8);
        assert((8 * pt) / 8 == pt) by {
            vstd::arithmetic::div_mod::lemma_div_multiples_vanish(pt, 8);
        }
    }
}

/// The Prover in its initial phase, before any commitment.
pub struct Prover<B: ProverBackend> {
    backend: B,
}

impl<B: ProverBackend> Prover<B> {
    /// The backend this Prover proves with.
    pub closed spec fn backend(&self) -> B {
        self.backend
    }

    pub fn new(backend: B) -> (r: Prover<B>)
        ensures
            r.backend() == backend,
    {
        Prover { backend }
    }

    /// Commits to a batch of (plaintext, active encodings) pairs,
    /// producing one commitment per entry in batch order, and advances
    /// the Prover to its committed phase, which retains the batch.
    ///
    /// An empty batch, or an entry whose encodings do not number one per
    /// plaintext bit, is rejected with `InputShapeError` before any
    /// cryptographic work; a backend failure is `CommitmentError`.
    pub fn commit(self, batch: Vec<(Vec<u8>, ActiveEncodings)>) -> (r: Result<(ProverCommitted<B>, Vec<Commitment>), ProverError>)
        ensures
            r is Ok <==> batch_shape_ok(batch@) && batch_commit_ok(self.backend(), batch@),
            r matches Ok((p, cs)) ==> ({
                &&& p.backend() == self.backend()
                &&& p.batch() == batch@
                &&& cs@.len() == batch@.len()
                &&& forall|i: int| 0 <= i < batch@.len()
                    ==> (#[trigger] cs@[i])@ == self.backend().commitment_spec(batch@[i].0@, batch@[i].1@)
            }),
            !batch_shape_ok(batch@) ==> (r matches Err(e) && e == ProverError::InputShapeError),
            batch_shape_ok(batch@) && !batch_commit_ok(self.backend(), batch@)
                ==> (r matches Err(e) && e == ProverError::CommitmentError),
    {
        if batch.len() == 0 {
            return Err(ProverError::InputShapeError);
        }
        let mut i: usize = 0;
        while i < batch.len()
            invariant
                i <= batch@.len(),
                forall|k: int| 0 <= k < i ==> entry_shape_ok(#[trigger] batch@[k]),
            decreases batch.len() - i,
        {
            let entry = &batch[i];
            let shape_ok = entry.1.encodings.len() % 8 == 0 && entry.1.encodings.len() / 8 == entry.0.len();
            proof {
                lemma_mul8_divmod(entry.1@.len() as int, entry.0@.len() as int);
            }
            if !shape_ok {
                return Err(ProverError::InputShapeError);
            }
            i += 1;
        }
        let mut commitments: Vec<Commitment> = Vec::new();
        let mut i: usize = 0;
        while i < batch.len()
            invariant
                i <= batch@.len(),
                batch_shape_ok(batch@),
                commitments@.len() == i,
                forall|k: int| 0 <= k < i ==> #[trigger] self.backend().commit_ok(batch@[k].0@, batch@[k].1@),
                forall|k: int| 0 <= k < i
                    ==> (#[trigger] commitments@[k])@ == self.backend().commitment_spec(batch@[k].0@, batch@[k].1@),
            decreases batch.len() - i,
        {
            let entry = &batch[i];
            match self.backend.commit(&entry.0, &entry.1) {
                Ok(c) => {
                    commitments.push(c);
                }
                Err(_) => {
                    return Err(ProverError::CommitmentError);
                }
            }
            i += 1;
        }
        Ok((ProverCommitted { backend: self.backend, batch }, commitments))
    }
}

/// The Prover after commitment: the batch is fixed and the only next
/// step is the encoding-consistency check.
pub struct ProverCommitted<B: ProverBackend> {
    backend: B,
    batch: Vec<(Vec<u8>, ActiveEncodings)>,
}

impl<B: ProverBackend> ProverCommitted<B> {
    pub closed spec fn backend(&self) -> B {
        self.backend
    }

    /// The committed batch, fixed at the commit phase.
    pub closed spec fn batch(&self) -> Seq<(Vec<u8>, ActiveEncodings)> {
        self.batch@
    }

    /// Checks the Verifier's claimed full encodings through the supplied
    /// encoding verifier: first its `init` hook receives the agreed
    /// side-channel payload, then `verify` runs on each claimed set.
    ///
    /// A verification data whose set count differs from the batch is
    /// rejected with `InputShapeError`; a rejected set is
    /// `EncodingVerificationFailed` and the session must be aborted.
    pub fn check<V: EncodingVerifier>(self, verification_data: VerificationData, encoding_verifier: V) -> (r: Result<ProverChecked<B>, ProverError>)
        ensures
            r is Ok <==> check_passes(encoding_verifier, verification_data.full_encodings@, self.batch().len() as int),
            r matches Ok(p) ==> ({
                &&& p.backend() == self.backend()
                &&& p.batch() == self.batch()
                &&& p.full() == verification_data.full_encodings@
            }),
            verification_data.full_encodings@.len() != self.batch().len()
                ==> (r matches Err(e) && e == ProverError::InputShapeError),
            verification_data.full_encodings@.len() == self.batch().len()
                    && !check_passes(encoding_verifier, verification_data.full_encodings@, self.batch().len() as int)
                ==> (r matches Err(e) && e == ProverError::EncodingVerificationFailed),
    {
        if verification_data.full_encodings.len() != self.batch.len() {
            return Err(ProverError::InputShapeError);
        }
        encoding_verifier.init(&verification_data.init_data);
        let mut i: usize = 0;
        while i < verification_data.full_encodings.len()
            invariant
                i <= verification_data.full_encodings@.len(),
                verification_data.full_encodings@.len() == self.batch().len(),
                forall|k: int| 0 <= k < i
                    ==> #[trigger] encoding_verifier.accepts(verification_data.full_encodings@[k]@),
            decreases verification_data.full_encodings.len() - i,
        {
            match encoding_verifier.verify(&verification_data.full_encodings[i]) {
                Ok(_) => {}
                Err(_) => {
                    proof {
                        assert(!encoding_verifier.accepts(verification_data.full_encodings@[i as int]@));
                    }
                    return Err(ProverError::EncodingVerificationFailed);
                }
            }
            i += 1;
        }
        Ok(ProverChecked {
            backend: self.backend,
            batch: self.batch,
            full_encodings: verification_data.full_encodings,
        })
    }
}

/// The Prover after a successful encoding-consistency check: the only
/// next step is proof generation.
pub struct ProverChecked<B: ProverBackend> {
    backend: B,
    batch: Vec<(Vec<u8>, ActiveEncodings)>,
    full_encodings: Vec<FullEncodings>,
}

impl<B: ProverBackend> ProverChecked<B> {
    pub closed spec fn backend(&self) -> B {
        self.backend
    }

    pub closed spec fn batch(&self) -> Seq<(Vec<u8>, ActiveEncodings)> {
        self.batch@
    }

    /// The full encoding sets the check phase validated, in batch order.
    pub closed spec fn full(&self) -> Seq<FullEncodings> {
        self.full_encodings@
    }

    /// Produces one proof per committed entry, in batch order, against
    /// the checked full encoding sets, and moves the Prover to its
    /// terminal proved phase.
    ///
    /// A backend refusal — in particular, an entry that does not satisfy
    /// the backend's proving relation — is `ProofGenerationError` and the
    /// session must restart from fresh commitments.
    pub fn prove(self) -> (r: Result<(ProverProved, ProofSet), ProverError>)
        ensures
            r is Ok <==> prove_passes(self.backend(), self.batch(), self.full()),
            r matches Ok((_, ps)) ==> ({
                &&& ps.proofs@.len() == self.batch().len()
                &&& forall|i: int| 0 <= i < self.batch().len()
                    ==> (#[trigger] ps.proofs@[i])@
                        == self.backend().proof_spec(self.batch()[i].0@, self.batch()[i].1@, self.full()[i]@)
            }),
            self.full().len() != self.batch().len()
                ==> (r matches Err(e) && e == ProverError::InputShapeError),
            self.full().len() == self.batch().len() && !prove_passes(self.backend(), self.batch(), self.full())
                ==> (r matches Err(e) && e == ProverError::ProofGenerationError),
    {
        if self.full_encodings.len() != self.batch.len() {
            return Err(ProverError::InputShapeError);
        }
        let mut proofs: Vec<Proof> = Vec::new();
        let mut i: usize = 0;
        while i < self.batch.len()
            invariant
                i <= self.batch().len(),
                self.full().len() == self.batch().len(),
                proofs@.len() == i,
                forall|k: int| 0 <= k < i
                    ==> #[trigger] self.backend().proof_ok(self.batch()[k].0@, self.batch()[k].1@, self.full()[k]@),
                forall|k: int| 0 <= k < i
                    ==> (#[trigger] proofs@[k])@
                        == self.backend().proof_spec(self.batch()[k].0@, self.batch()[k].1@, self.full()[k]@),
            decreases self.batch.len() - i,
        {
            let entry = &self.batch[i];
            match self.backend.prove(&entry.0, &entry.1, &self.full_encodings[i]) {
                Ok(p) => {
                    proofs.push(p);
                }
                Err(_) => {
                    return Err(ProverError::ProofGenerationError);
                }
            }
            i += 1;
        }
        Ok((ProverProved {}, ProofSet { proofs }))
    }
}

/// The Prover's terminal phase: the proof set has been produced and no
/// further operation exists for this session.
pub struct ProverProved {}

} // verus!
