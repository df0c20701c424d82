//! The encoding data model: full encoding sets held by the Verifier and
//! active encodings selected by the Prover from them, one per plaintext
//! bit.

use vstd::prelude::*;
use crate::utils::bits_of;

verus! {

/// An opaque cryptographic label standing for one possible value of one
/// plaintext bit.
#[derive(Clone, Copy, PartialEq, Eq, Structural, Debug)]
pub struct Encoding {
    pub value: u128,
}

impl Encoding {
    pub fn new(value: u128) -> (r: Encoding)
        ensures
            r.value == value,
    {
        Encoding { value }
    }
}

/// The two possible labels of one bit position: `zero` encodes bit value
/// 0, `one` encodes bit value 1.
#[derive(Clone, Copy, PartialEq, Eq, Structural, Debug)]
pub struct EncodingPair {
    pub zero: Encoding,
    pub one: Encoding,
}

impl EncodingPair {
    pub fn new(zero: Encoding, one: Encoding) -> (r: EncodingPair)
        ensures
            r.zero == zero,
            r.one == one,
    {
        EncodingPair { zero, one }
    }
}

/// Errors of the encoding model.
#[derive(Clone, Copy, PartialEq, Eq, Structural, Debug)]
pub enum EncodingError {
    /// A full encoding set may not be empty.
    InvalidLength,
    /// The bit string handed to `encode` must have exactly one bit per
    /// encoding pair.
    LengthMismatch,
}

/// The label selected from each pair by the corresponding bit: the `one`
/// member where the bit is set, the `zero` member where it is not.
pub open spec fn select(pairs: Seq<EncodingPair>, bits: Seq<bool>) -> Seq<Encoding> {
    Seq::new(bits.len(), |i: int| if bits[i] { pairs[i].one } else { pairs[i].zero })
}

/// An ordered sequence of encoding pairs, one pair per bit position of
/// the expected plaintext. The Verifier holds both labels of every bit.
pub struct FullEncodings {
    pairs: Vec<EncodingPair>,
}

impl View for FullEncodings {
    type V = Seq<EncodingPair>;

    closed spec fn view(&self) -> Seq<EncodingPair> {
        self.pairs@
    }
}

impl Clone for FullEncodings {
    fn clone(&self) -> (r: Self)
        ensures
            r@ == self@,
    {
        let mut pairs: Vec<EncodingPair> = Vec::new();
        let mut i: usize = 0;
        while i < self.pairs.len()
            invariant
                i <= self.pairs.len(),
                pairs@ == self.pairs@.take(i as int),
            decreases self.pairs.len() - i,
        {
            pairs.push(self.pairs[i]);
            proof {
                assert(pairs@ =~= self.pairs@.take(i + 1));
            }
            i += 1;
        }
        proof {
            assert(pairs@ =~= self.pairs@);
        }
        FullEncodings { pairs }
    }
}

impl FullEncodings {
    /// Constructs a full encoding set from an ordered sequence of pairs;
    /// an empty sequence is rejected with `InvalidLength`.
    pub fn new(pairs: Vec<EncodingPair>) -> (r: Result<FullEncodings, EncodingError>)
        ensures
            r is Ok <==> pairs@.len() > 0,
            r matches Ok(f) ==> f@ == pairs@,
            r is Err ==> r == Err::<FullEncodings, EncodingError>(EncodingError::InvalidLength),
    {
        if pairs.len() == 0 {
            Err(EncodingError::InvalidLength)
        } else {
            Ok(FullEncodings { pairs })
        }
    }

    /// The number of bit positions this set encodes.
    pub fn len(&self) -> (r: usize)
        ensures
            r == self@.len(),
    {
        self.pairs.len()
    }

    /// The ordered encoding pairs.
    pub fn pairs(&self) -> (r: &Vec<EncodingPair>)
        ensures
            r@ == self@,
    {
        &self.pairs
    }

    /// Selects, for each bit position, the pair member matching the
    /// corresponding bit; a bit string whose length differs from the
    /// number of pairs is rejected with `LengthMismatch`.
    pub fn encode(&self, bits: &Vec<bool>) -> (r: Result<ActiveEncodings, EncodingError>)
        ensures
            r is Ok <==> bits@.len() == self@.len(),
            r matches Ok(a) ==> a@ == select(self@, bits@),
            r is Err ==> r == Err::<ActiveEncodings, EncodingError>(EncodingError::LengthMismatch),
    {
        if bits.len() != self.pairs.len() {
            return Err(EncodingError::LengthMismatch);
        }
        let mut encodings: Vec<Encoding> = Vec::new();
        let mut i: usize = 0;
        while i < bits.len()
            invariant
                i <= bits@.len(),
                bits@.len() == self.pairs@.len(),
                encodings@.len() == i,
                forall|k: int| 0 <= k < i ==> encodings@[k] == select(self.pairs@, bits@)[k],
            decreases bits.len() - i,
        {
            if bits[i] {
                encodings.push(self.pairs[i].one);
            } else {
                encodings.push(self.pairs[i].zero);
            }
            i += 1;
        }
        proof {
            assert(encodings@ =~= select(self@, bits@));
        }
        Ok(ActiveEncodings { encodings })
    }
}

/// An ordered sequence of single labels, one per bit position, each
/// selected from the corresponding pair by the actual plaintext bit.
/// The Prover holds these; they are never sent to the Verifier.
pub struct ActiveEncodings {
    pub encodings: Vec<Encoding>,
}

impl View for ActiveEncodings {
    type V = Seq<Encoding>;

    open spec fn view(&self) -> Seq<Encoding> {
        self.encodings@
    }
}

impl ActiveEncodings {
    pub fn new(encodings: Vec<Encoding>) -> (r: ActiveEncodings)
        ensures
            r@ == encodings@,
    {
        ActiveEncodings { encodings }
    }

    pub fn len(&self) -> (r: usize)
        ensures
            r == self@.len(),
    {
        self.encodings.len()
    }
}

/// The relation the protocol proves of one batch entry: the active
/// encodings are exactly the selection that the plaintext's bits make
/// from the full encoding set.
pub open spec fn encodes(plaintext: Seq<u8>, encodings: Seq<Encoding>, full: Seq<EncodingPair>) -> bool {
    &&& full.len() == plaintext.len() * 8
    &&& encodings == select(full, bits_of(plaintext))
}

} // verus!
