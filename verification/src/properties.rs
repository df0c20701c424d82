//! Protocol-level laws, stated over the spec-level model of a session
//! run with the mock backend pair and proved once for all inputs.
//!
//! `pipeline_accepts` is the spec-level composition of the five phases'
//! success conditions — `commit` (shape and backend commitment),
//! `prove` (the backend's proving relation) and `verify` (the backend's
//! acceptance of each proof against its commitment) — as the phases'
//! own contracts state them for the mock backends.

use vstd::prelude::*;
use crate::encodings::{encodes, select, Encoding, EncodingPair, FullEncodings};
use crate::mock::{mock_accepts, mock_digest, MockProverBackend, MockVerifierBackend};
use crate::backend::{ProverBackend, VerifierBackend};
use crate::prover::{check_passes, EncodingVerifier};
use crate::utils::bits_of;

verus! {

/// One batch entry passes all five phases with the mock backends: it is
/// well-shaped for `commit`, satisfies the mock proving relation in
/// `prove`, and its proof matches its commitment in `verify`.
pub open spec fn entry_accepted(plaintext: Seq<u8>, encodings: Seq<Encoding>, full: Seq<EncodingPair>) -> bool {
    &&& encodings.len() == plaintext.len() * 8
    &&& encodes(plaintext, encodings, full)
    &&& mock_accepts(mock_digest(plaintext, encodings), mock_digest(plaintext, encodings))
}

/// A whole session run with the mock backends ends in the Verifier's
/// accepted phase: the batch is non-empty, one full encoding set stands
/// per entry, and every entry passes all phases.
pub open spec fn pipeline_accepts(plaintexts: Seq<Seq<u8>>, encodings: Seq<Seq<Encoding>>, fulls: Seq<Seq<EncodingPair>>) -> bool {
    &&& plaintexts.len() > 0
    &&& encodings.len() == plaintexts.len()
    &&& fulls.len() == plaintexts.len()
    &&& forall|i: int| 0 <= i < plaintexts.len()
        ==> #[trigger] entry_accepted(plaintexts[i], encodings[i], fulls[i])
}

/// The honestly derived active encodings of each entry: the selection
/// its plaintext's bits make from its full encoding set.
pub open spec fn honest_encodings(plaintexts: Seq<Seq<u8>>, fulls: Seq<Seq<EncodingPair>>) -> Seq<Seq<Encoding>> {
    Seq::new(plaintexts.len(), |i: int| select(fulls[i], bits_of(plaintexts[i])))
}

/// The honest selection with position `j` flipped to the wrong member
/// of its pair.
pub open spec fn flipped_at(full: Seq<EncodingPair>, bits: Seq<bool>, j: int) -> Seq<Encoding> {
    select(full, bits).update(j, if bits[j] { full[j].zero } else { full[j].one })
}

/// Both full encoding lists of two batch positions exchanged.
pub open spec fn swapped(fulls: Seq<Seq<EncodingPair>>, i: int, j: int) -> Seq<Seq<EncodingPair>> {
    fulls.update(i, fulls[j]).update(j, fulls[i])
}

/// Completeness: for every non-empty batch of plaintexts with full
/// encoding sets of matching bit-length, a session over the honestly
/// derived active encodings is accepted.
pub proof fn lemma_completeness(plaintexts: Seq<Seq<u8>>, fulls: Seq<Seq<EncodingPair>>)
    requires
        plaintexts.len() > 0,
        fulls.len() == plaintexts.len(),
        forall|i: int| 0 <= i < plaintexts.len()
            ==> (#[trigger] fulls[i]).len() == plaintexts[i].len() * 8,
    ensures
        pipeline_accepts(plaintexts, honest_encodings(plaintexts, fulls), fulls),
{
    let encs = honest_encodings(plaintexts, fulls);
    assert forall|i: int| 0 <= i < plaintexts.len()
        implies #[trigger] entry_accepted(plaintexts[i], encs[i], fulls[i]) by {
        assert(encs[i] == select(fulls[i], bits_of(plaintexts[i])));
        assert(encs[i].len() == bits_of(plaintexts[i]).len());
    }
}

/// Soundness: if any entry's active encodings are perturbed before
/// commitment by flipping one encoding to the wrong member of its pair
/// — the two members being distinct — the session is never accepted:
/// the mock backend refuses to prove the perturbed entry.
pub proof fn lemma_soundness_flip(plaintexts: Seq<Seq<u8>>, fulls: Seq<Seq<EncodingPair>>, i: int, j: int)
    requires
        fulls.len() == plaintexts.len(),
        forall|k: int| 0 <= k < plaintexts.len()
            ==> (#[trigger] fulls[k]).len() == plaintexts[k].len() * 8,
        0 <= i < plaintexts.len(),
        0 <= j < fulls[i].len(),
        fulls[i][j].zero != fulls[i][j].one,
    ensures
        !pipeline_accepts(
            plaintexts,
            honest_encodings(plaintexts, fulls).update(i, flipped_at(fulls[i], bits_of(plaintexts[i]), j)),
            fulls,
        ),
{
    let bits = bits_of(plaintexts[i]);
    let honest = select(fulls[i], bits);
    let bad = flipped_at(fulls[i], bits, j);
    assert(bad[j] != honest[j]);
    assert(bad != honest);
    let encs = honest_encodings(plaintexts, fulls).update(i, bad);
    assert(encs[i] == bad);
    assert(!entry_accepted(plaintexts[i], encs[i], fulls[i]));
}

/// Batch ordering: exchanging the full encoding sets of two batch
/// positions whose sets do not select the same active encodings makes
/// the session fail — the entries no longer satisfy the proving
/// relation against the reordered sets.
pub proof fn lemma_batch_reorder(plaintexts: Seq<Seq<u8>>, fulls: Seq<Seq<EncodingPair>>, i: int, j: int)
    requires
        fulls.len() == plaintexts.len(),
        forall|k: int| 0 <= k < plaintexts.len()
            ==> (#[trigger] fulls[k]).len() == plaintexts[k].len() * 8,
        0 <= i < plaintexts.len(),
        0 <= j < plaintexts.len(),
        fulls[j].len() != fulls[i].len()
            || select(fulls[j], bits_of(plaintexts[i])) != select(fulls[i], bits_of(plaintexts[i])),
    ensures
        !pipeline_accepts(plaintexts, honest_encodings(plaintexts, fulls), swapped(fulls, i, j)),
{
    if i == j {
        assert(false);
    } else {
        let encs = honest_encodings(plaintexts, fulls);
        let fulls2 = swapped(fulls, i, j);
        assert(fulls2[i] == fulls[j]);
        assert(encs[i] == select(fulls[i], bits_of(plaintexts[i])));
        assert(!entry_accepted(plaintexts[i], encs[i], fulls2[i]));
    }
}

/// Encoding-verifier gating: if the supplied encoding verifier rejects
/// any claimed full encoding set, the check phase cannot pass — and
/// with it failing, no checked state exists on which `prove` could run.
pub proof fn lemma_check_gating<V: EncodingVerifier>(verifier: V, fulls: Seq<FullEncodings>, batch_len: int, k: int)
    requires
        0 <= k < fulls.len(),
        !verifier.accepts(fulls[k]@),
    ensures
        !check_passes(verifier, fulls, batch_len),
{
}

/// Setup interchangeability: the mock verifier backend's acceptance
/// does not depend on its key, so verification keys from separate
/// setup runs are interchangeable.
pub proof fn lemma_verification_keys_interchangeable(b1: MockVerifierBackend, b2: MockVerifierBackend, proof_words: Seq<u128>, commitment_words: Seq<u128>, full: Seq<EncodingPair>)
    ensures
        b1.accepts(proof_words, commitment_words, full) == b2.accepts(proof_words, commitment_words, full),
{
}

/// Setup interchangeability, Prover side: the mock prover backend's
/// commitments, proofs and proving relation do not depend on its key,
/// so proving keys from separate setup runs are interchangeable.
pub proof fn lemma_proving_keys_interchangeable(b1: MockProverBackend, b2: MockProverBackend, plaintext: Seq<u8>, encodings: Seq<Encoding>, full: Seq<EncodingPair>)
    ensures
        b1.commit_ok(plaintext, encodings) == b2.commit_ok(plaintext, encodings),
        b1.commitment_spec(plaintext, encodings) == b2.commitment_spec(plaintext, encodings),
        b1.proof_ok(plaintext, encodings, full) == b2.proof_ok(plaintext, encodings, full),
        b1.proof_spec(plaintext, encodings, full) == b2.proof_spec(plaintext, encodings, full),
{
}

} // verus!
