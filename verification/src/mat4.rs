//! 4x4 transform matrices and their uniform-buffer encoding.
//!
//! A matrix is sixteen single-precision bit patterns in column-major
//! order, exactly the layout a 64-byte uniform buffer expects.  Encoding
//! writes each word in little-endian order; decoding reverses it, and the
//! round trip is proved exact for every matrix.

use vstd::prelude::*;
use vstd::bytes::*;
use crate::bits::F32_ONE_BITS;

verus! {

/// A 4x4 matrix of single-precision bit patterns, stored column-major as
/// sixteen words.
#[derive(Clone, Debug)]
pub struct Mat4 {
    pub words: Vec<u32>,
}

/// The sixteen words of the identity matrix: one on the diagonal
/// (positions 0, 5, 10, 15), zero elsewhere.
pub open spec fn spec_identity_words() -> Seq<u32> {
    Seq::new(16, |i: int| if i % 5 == 0 { F32_ONE_BITS } else { 0u32 })
}

/// The little-endian byte image of a sequence of words.
pub open spec fn words_to_bytes(s: Seq<u32>) -> Seq<u8>
    decreases s.len(),
{
    if s.len() == 0 {
        Seq::empty()
    } else {
        spec_u32_to_le_bytes(s[0]) + words_to_bytes(s.drop_first())
    }
}

/// The words read back from a little-endian byte image.
pub open spec fn bytes_to_words(b: Seq<u8>) -> Seq<u32>
    decreases b.len(),
{
    if b.len() < 4 {
        Seq::empty()
    } else {
        seq![spec_u32_from_le_bytes(b.take(4))] + bytes_to_words(b.skip(4))
    }
}

pub proof fn lemma_words_to_bytes_len(s: Seq<u32>)
    ensures
        words_to_bytes(s).len() == 4 * s.len(),
    decreases s.len(),
{
    lemma_auto_spec_u32_to_from_le_bytes();
    if s.len() > 0 {
        lemma_words_to_bytes_len(s.drop_first());
    }
}

pub proof fn lemma_words_to_bytes_push(s: Seq<u32>, w: u32)
    ensures
        words_to_bytes(s.push(w)) == words_to_bytes(s) + spec_u32_to_le_bytes(w),
    decreases s.len(),
{
    lemma_auto_spec_u32_to_from_le_bytes();
    if s.len() == 0 {
        assert(s.push(w)[0] == w);
        assert(s.push(w).drop_first() =~= Seq::<u32>::empty());
        assert(words_to_bytes(Seq::<u32>::empty()) == Seq::<u8>::empty());
        assert(words_to_bytes(s.push(w)) =~= words_to_bytes(s) + spec_u32_to_le_bytes(w));
    } else {
        let a = spec_u32_to_le_bytes(s[0]);
        let c = spec_u32_to_le_bytes(w);
        let t = s.drop_first();
        assert(s.push(w)[0] == s[0]);
        assert(s.push(w).drop_first() =~= t.push(w));
        lemma_words_to_bytes_push(t, w);
        assert(words_to_bytes(s.push(w)) == a + words_to_bytes(t.push(w)));
        assert(words_to_bytes(t.push(w)) == words_to_bytes(t) + c);
        assert(a + (words_to_bytes(t) + c) =~= (a + words_to_bytes(t)) + c);
        assert(words_to_bytes(s) == a + words_to_bytes(t));
    }
}

/// Decoding inverts encoding: the words read back from the byte image of
/// any word sequence are that sequence.
pub proof fn lemma_words_bytes_round_trip(s: Seq<u32>)
    ensures
        bytes_to_words(words_to_bytes(s)) == s,
    decreases s.len(),
{
    lemma_auto_spec_u32_to_from_le_bytes();
    if s.len() == 0 {
        assert(bytes_to_words(words_to_bytes(s)) =~= s);
    } else {
        let head = spec_u32_to_le_bytes(s[0]);
        let b = words_to_bytes(s);
        lemma_words_to_bytes_len(s.drop_first());
        assert(b.take(4) =~= head);
        assert(b.skip(4) =~= words_to_bytes(s.drop_first()));
        lemma_words_bytes_round_trip(s.drop_first());
        assert(bytes_to_words(b) =~= s);
    }
}

/// Encodes a sequence of words as little-endian bytes, four per word.
pub fn encode_words(words: &Vec<u32>) -> (b: Vec<u8>)
    ensures
        b@ == words_to_bytes(words@),
        b@.len() == 4 * words@.len(),
{
    let mut out: Vec<u8> = Vec::new();
    let mut i: usize = 0;
    while i < words.len()
        invariant
            i <= words@.len(),
            out@ == words_to_bytes(words@.take(i as int)),
        decreases words@.len() - i,
    {
        let mut wb = u32_to_le_bytes(words[i]);
        out.append(&mut wb);
        proof {
            lemma_words_to_bytes_push(words@.take(i as int), words@[i as int]);
            assert(words@.take(i as int).push(words@[i as int]) =~= words@.take(i as int + 1));
        }
        i += 1;
    }
    proof {
        assert(words@.take(words@.len() as int) =~= words@);
        lemma_words_to_bytes_len(words@);
    }
    out
}

impl Mat4 {
    /// A matrix is well formed when it holds exactly sixteen words.
    pub open spec fn wf(self) -> bool {
        self.words@.len() == 16
    }

    /// Builds a matrix from its sixteen column-major words.
    pub fn from_words(words: Vec<u32>) -> (m: Mat4)
        requires
            words@.len() == 16,
        ensures
            m.wf(),
            m.words@ == words@,
    {
        Mat4 { words }
    }

    /// The identity transform.
    pub fn identity() -> (m: Mat4)
        ensures
            m.wf(),
            m.words@ == spec_identity_words(),
    {
        let mut words: Vec<u32> = Vec::new();
        let mut i: usize = 0;
        while i < 16
            invariant
                i <= 16,
                words@.len() == i,
                forall|j: int| 0 <= j < i ==> words@[j] == spec_identity_words()[j],
            decreases 16 - i,
        {
            if i % 5 == 0 {
                words.push(F32_ONE_BITS);
            } else {
                words.push(0);
            }
            i += 1;
        }
        proof {
            assert(words@ =~= spec_identity_words());
        }
        Mat4 { words }
    }

    /// Encodes the matrix as the 64 bytes a uniform buffer holds.
    pub fn to_bytes(&self) -> (b: Vec<u8>)
        requires
            self.wf(),
        ensures
            b@ == words_to_bytes(self.words@),
            b@.len() == 64,
    {
        encode_words(&self.words)
    }

    /// Decodes a 64-byte uniform image back into a matrix.
    pub fn from_bytes(b: &Vec<u8>) -> (m: Mat4)
        requires
            b@.len() == 64,
        ensures
            m.wf(),
            m.words@ == bytes_to_words(b@),
    {
        let mut words: Vec<u32> = Vec::new();
        let mut i: usize = 0;
        while i < 16
            invariant
                b@.len() == 64,
                i <= 16,
                words@.len() == i,
                words@ == bytes_to_words(b@.take(4 * i as int)),
            decreases 16 - i,
        {
            let chunk = vstd::slice::slice_subrange(b.as_slice(), 4 * i, 4 * i + 4);
            let w = u32_from_le_bytes(chunk);
            words.push(w);
            proof {
                lemma_bytes_to_words_snoc(b@.take(4 * i as int), b@.subrange(
                    4 * i as int,
                    4 * i as int + 4,
                ));
                assert(b@.take(4 * i as int) + b@.subrange(4 * i as int, 4 * i as int + 4) =~= b@
                    .take(4 * (i as int + 1)));
            }
            i += 1;
        }
        proof {
            assert(b@.take(64) =~= b@);
        }
        Mat4 { words }
    }
}

pub proof fn lemma_bytes_to_words_snoc(b: Seq<u8>, w4: Seq<u8>)
    requires
        b.len() % 4 == 0,
        w4.len() == 4,
    ensures
        bytes_to_words(b + w4) == bytes_to_words(b).push(spec_u32_from_le_bytes(w4)),
    decreases b.len(),
{
    let y = spec_u32_from_le_bytes(w4);
    if b.len() == 0 {
        assert(b + w4 =~= w4);
        assert(w4.take(4) =~= w4);
        assert(w4.skip(4) =~= Seq::<u8>::empty());
        assert(bytes_to_words(Seq::<u8>::empty()) == Seq::<u32>::empty());
        assert(bytes_to_words(b + w4) == seq![y] + bytes_to_words(w4.skip(4)));
        assert(bytes_to_words(b) == Seq::<u32>::empty());
        assert(seq![y] + Seq::<u32>::empty() =~= Seq::<u32>::empty().push(y));
    } else {
        assert(b.len() >= 4);
        let x = spec_u32_from_le_bytes(b.take(4));
        let t = b.skip(4);
        assert((b + w4).take(4) =~= b.take(4));
        assert((b + w4).skip(4) =~= t + w4);
        assert(t.len() % 4 == 0);
        lemma_bytes_to_words_snoc(t, w4);
        assert(bytes_to_words(b + w4) == seq![x] + bytes_to_words(t + w4));
        assert(bytes_to_words(t + w4) == bytes_to_words(t).push(y));
        assert(seq![x] + bytes_to_words(t).push(y) =~= (seq![x] + bytes_to_words(t)).push(y));
        assert(bytes_to_words(b) == seq![x] + bytes_to_words(t));
    }
}

} // verus!
