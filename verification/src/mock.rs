//! A mock proving system and test doubles for the encoding-verifier
//! capability, used to exercise the protocol in isolation.
//!
//! The mock backend pair satisfies the backend contract exactly: the
//! mock prover refuses to prove an entry whose active encodings are not
//! the selection its plaintext makes from the full encoding set, and
//! the mock verifier accepts a proof exactly when it matches the
//! commitment. Its commitment is binding by construction but — unlike a
//! real zero-knowledge backend — not hiding, so it must never be used
//! outside protocol testing.

use vstd::prelude::*;
use crate::backend::{
    BackendError, Commitment, Proof, ProvingKey, ProverBackend, PublicParams, VerificationKey,
    VerifierBackend,
};
use crate::encodings::{encodes, select, ActiveEncodings, Encoding, EncodingPair, FullEncodings};
use crate::prover::{EncodingVerifier, EncodingVerifierError, InitData};
use crate::utils::{bits_of, u8vec_to_boolvec};

verus! {

/// The digest the mock backend commits to: the plaintext bytes followed
/// by the active encoding values, one word each.
pub open spec fn mock_digest(plaintext: Seq<u8>, encodings: Seq<Encoding>) -> Seq<u128> {
    Seq::new(
        plaintext.len() + encodings.len(),
        |i: int| if i < plaintext.len() { plaintext[i] as u128 } else { encodings[i - plaintext.len()].value },
    )
}

/// The mock verifier's acceptance predicate: the proof words must equal
/// the commitment words.
pub open spec fn mock_accepts(proof_words: Seq<u128>, commitment_words: Seq<u128>) -> bool {
    proof_words == commitment_words
}

fn digest_words(plaintext: &Vec<u8>, encodings: &ActiveEncodings) -> (r: Vec<u128>)
    ensures
        r@ == mock_digest(plaintext@, encodings@),
{
    let mut data: Vec<u128> = Vec::new();
    let mut i: usize = 0;
    while i < plaintext.len()
        invariant
            i <= plaintext@.len(),
            data@.len() == i,
            forall|k: int| 0 <= k < i ==> data@[k] == plaintext@[k] as u128,
        decreases plaintext.len() - i,
    {
        data.push(plaintext[i] as u128);
        i += 1;
    }
    let mut j: usize = 0;
    while j < encodings.encodings.len()
        invariant
            j <= encodings@.len(),
            data@.len() == plaintext@.len() + j,
            forall|k: int| 0 <= k < plaintext@.len() ==> data@[k] == plaintext@[k] as u128,
            forall|k: int| 0 <= k < j ==> data@[plaintext@.len() + k] == encodings@[k].value,
        decreases encodings.encodings.len() - j,
    {
        data.push(encodings.encodings[j].value);
        j += 1;
    }
    proof {
        assert(data@ =~= mock_digest(plaintext@, encodings@));
    }
    data
}

fn words_eq(a: &Vec<u128>, b: &Vec<u128>) -> (r: bool)
    ensures
        r == (a@ == b@),
{
    if a.len() != b.len() {
        return false;
    }
    let mut i: usize = 0;
    while i < a.len()
        invariant
            i <= a@.len(),
            a@.len() == b@.len(),
            forall|k: int| 0 <= k < i ==> a@[k] == b@[k],
        decreases a.len() - i,
    {
        if a[i] != b[i] {
            proof {
                assert(a@[i as int] != b@[i as int]);
            }
            return false;
        }
        i += 1;
    }
    proof {
        assert(a@ =~= b@);
    }
    true
}

fn clone_bytes(v: &Vec<u8>) -> (r: Vec<u8>)
    ensures
        r@ == v@,
{
    let mut data: Vec<u8> = Vec::new();
    let mut i: usize = 0;
    while i < v.len()
        invariant
            i <= v@.len(),
            data@.len() == i,
            forall|k: int| 0 <= k < i ==> data@[k] == v@[k],
        decreases v.len() - i,
    {
        data.push(v[i]);
        i += 1;
    }
    proof {
        assert(data@ =~= v@);
    }
    data
}

/// The mock one-time setup: public parameters are empty, and each key
/// is a copy of the parameters. Setup is deterministic, so two runs on
/// identical parameters produce identical, interchangeable keys.
pub struct MockOneTimeSetup {}

impl MockOneTimeSetup {
    pub fn params() -> (r: PublicParams)
        ensures
            r@ == Seq::<u8>::empty(),
    {
        PublicParams { data: Vec::new() }
    }

    pub fn proving_key(params: &PublicParams) -> (r: ProvingKey)
        ensures
            r@ == params@,
    {
        ProvingKey { data: clone_bytes(&params.data) }
    }

    pub fn verification_key(params: &PublicParams) -> (r: VerificationKey)
        ensures
            r@ == params@,
    {
        VerificationKey { data: clone_bytes(&params.data) }
    }
}

/// The mock Prover-side backend. It holds its proving key but derives
/// nothing from it: commitments and proofs depend on the committed
/// values alone.
pub struct MockProverBackend {
    proving_key: ProvingKey,
}

impl MockProverBackend {
    pub closed spec fn key(&self) -> Seq<u8> {
        self.proving_key@
    }

    pub fn new(proving_key: ProvingKey) -> (r: MockProverBackend)
        ensures
            r.key() == proving_key@,
    {
        MockProverBackend { proving_key }
    }
}

impl ProverBackend for MockProverBackend {
    open spec fn commitment_spec(&self, plaintext: Seq<u8>, encodings: Seq<Encoding>) -> Seq<u128> {
        mock_digest(plaintext, encodings)
    }

    open spec fn commit_ok(&self, plaintext: Seq<u8>, encodings: Seq<Encoding>) -> bool {
        true
    }

    open spec fn proof_spec(&self, plaintext: Seq<u8>, encodings: Seq<Encoding>, full: Seq<EncodingPair>) -> Seq<u128> {
        mock_digest(plaintext, encodings)
    }

    open spec fn proof_ok(&self, plaintext: Seq<u8>, encodings: Seq<Encoding>, full: Seq<EncodingPair>) -> bool {
        encodes(plaintext, encodings, full)
    }

    fn commit(&self, plaintext: &Vec<u8>, encodings: &ActiveEncodings) -> (r: Result<Commitment, BackendError>) {
        Ok(Commitment { data: digest_words(plaintext, encodings) })
    }

    fn prove(&self, plaintext: &Vec<u8>, encodings: &ActiveEncodings, full: &FullEncodings) -> (r: Result<Proof, BackendError>) {
        let bits = u8vec_to_boolvec(plaintext);
        if full.len() != bits.len() {
            return Err(BackendError::ProofGenerationFailed);
        }
        if encodings.len() != bits.len() {
            proof {
                assert(encodings@.len() != select(full@, bits_of(plaintext@)).len());
            }
            return Err(BackendError::ProofGenerationFailed);
        }
        let pairs = full.pairs();
        let mut i: usize = 0;
        while i < bits.len()
            invariant
                i <= bits@.len(),
                bits@ == bits_of(plaintext@),
                full@.len() == bits@.len(),
                encodings@.len() == bits@.len(),
                pairs@ == full@,
                forall|k: int| 0 <= k < i ==> encodings@[k] == select(full@, bits_of(plaintext@))[k],
            decreases bits.len() - i,
        {
            let expected = if bits[i] { pairs[i].one } else { pairs[i].zero };
            if encodings.encodings[i] != expected {
                proof {
                    assert(encodings@[i as int] != select(full@, bits_of(plaintext@))[i as int]);
                }
                return Err(BackendError::ProofGenerationFailed);
            }
            i += 1;
        }
        proof {
            assert(encodings@ =~= select(full@, bits_of(plaintext@)));
        }
        Ok(Proof { data: digest_words(plaintext, encodings) })
    }
}

/// The mock Verifier-side backend. It holds its verification key but
/// derives nothing from it: acceptance depends on the proof and the
/// commitment alone, so keys from separate setup runs on identical
/// parameters are interchangeable.
pub struct MockVerifierBackend {
    verification_key: VerificationKey,
}

impl MockVerifierBackend {
    pub closed spec fn key(&self) -> Seq<u8> {
        self.verification_key@
    }

    pub fn new(verification_key: VerificationKey) -> (r: MockVerifierBackend)
        ensures
            r.key() == verification_key@,
    {
        MockVerifierBackend { verification_key }
    }
}

impl VerifierBackend for MockVerifierBackend {
    open spec fn accepts(&self, proof_words: Seq<u128>, commitment_words: Seq<u128>, full: Seq<EncodingPair>) -> bool {
        mock_accepts(proof_words, commitment_words)
    }

    fn verify(&self, proof: &Proof, commitment: &Commitment, full: &FullEncodings) -> (r: bool) {
        words_eq(&proof.data, &commitment.data)
    }
}

/// An encoding verifier that accepts every full encoding set
/// unconditionally; for isolated protocol testing only.
pub struct DummyEncodingsVerifier {}

impl EncodingVerifier for DummyEncodingsVerifier {
    open spec fn accepts(&self, full: Seq<EncodingPair>) -> bool {
        true
    }

    fn init(&self, init_data: &InitData) {}

    fn verify(&self, full: &FullEncodings) -> (r: Result<(), EncodingVerifierError>) {
        Ok(())
    }
}

/// An encoding verifier that rejects every full encoding set
/// unconditionally; for exercising the check phase's gating.
pub struct RejectingEncodingsVerifier {}

impl EncodingVerifier for RejectingEncodingsVerifier {
    open spec fn accepts(&self, full: Seq<EncodingPair>) -> bool {
        false
    }

    fn init(&self, init_data: &InitData) {}

    fn verify(&self, full: &FullEncodings) -> (r: Result<(), EncodingVerifierError>) {
        Err(EncodingVerifierError {})
    }
}

} // verus!
