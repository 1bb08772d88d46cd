//! Reading the engine's fixed binary record layout.
//!
//! The engine's "describe by copy" accessor yields a byte-exact capture of a
//! named value as one contiguous record, read in 64-bit little-endian words:
//!
//! ```text
//! [flag : word][type : word][count : word][rank : word]
//! [shape : rank words]
//! [payload : count bytes]
//! ```
//!
//! [`decode_binary`] interprets such a buffer. Only literal (character)
//! values are captured this way, so any other type tag is refused as a
//! [`JError::TypeMismatch`], and a record whose claimed sizes outrun the
//! buffer is refused as [`JError::Malformed`]: no byte is ever read beyond
//! the buffer, and none beyond `count`.

use vstd::bytes::spec_u64_from_le_bytes;
use vstd::prelude::*;

use crate::error::JError;
use crate::value::{JI, TAG_LIT};

verus! {

/// A byte-exact capture of a literal value: rank, shape (unsigned), the
/// reported type tag, and the raw payload bytes.
#[derive(PartialEq, Eq, Debug)]
pub struct JBin {
    /// Number of shape dimensions; 0 for a scalar.
    pub rank: JI,
    /// Extent of each dimension; its length always equals `rank`.
    pub shape: Vec<u64>,
    /// The type tag the record reported (always the literal tag).
    pub tag: JI,
    /// The raw payload, byte for byte as the engine stored it.
    pub data: Vec<u8>,
}

impl JBin {
    /// Well-formedness: a non-negative rank, one shape word per dimension,
    /// and a literal type tag.
    pub open spec fn wf(self) -> bool {
        &&& 0 <= self.rank
        &&& self.shape@.len() == self.rank
        &&& self.tag == TAG_LIT
    }
}

/// The `k`-th 64-bit little-endian word of a byte buffer.
pub open spec fn word_at(b: Seq<u8>, k: int) -> u64 {
    spec_u64_from_le_bytes(b.subrange(8 * k, 8 * k + 8))
}

/// The record's type word, the second of the header.
pub open spec fn type_word(b: Seq<u8>) -> u64 {
    word_at(b, 1)
}

/// The record's element-count word, the third of the header.
pub open spec fn count_word(b: Seq<u8>) -> u64 {
    word_at(b, 2)
}

/// The record's rank word, the fourth of the header.
pub open spec fn rank_word(b: Seq<u8>) -> u64 {
    word_at(b, 3)
}

/// Whether the buffer holds the four header words.
pub open spec fn header_ok(b: Seq<u8>) -> bool {
    32 <= b.len()
}

/// Whether the record's claimed shape words and payload bytes all lie
/// within the buffer.
pub open spec fn sizes_ok(b: Seq<u8>) -> bool {
    32 + 8 * (rank_word(b) as int) + (count_word(b) as int) <= b.len()
}

/// Whether a buffer is a complete literal record: full header, literal type
/// word, and claimed sizes within bounds.
pub open spec fn bin_parses(b: Seq<u8>) -> bool {
    &&& header_ok(b)
    &&& type_word(b) == TAG_LIT as u64
    &&& sizes_ok(b)
}

/// Reads the `k`-th 64-bit little-endian word of the buffer.
fn read_word(bytes: &[u8], k: usize) -> (r: u64)
    requires
        8 * k + 8 <= bytes@.len(),
    ensures
        r == word_at(bytes@, k as int),
{
    let n = bytes.len();
    assert(8 * k + 8 <= n); // ties the bound to the buffer's usize length
    let base = 8 * k;
    vstd::bytes::u64_from_le_bytes(&bytes[base..base + 8])
}

/// Interprets a byte buffer as the engine's binary record for a literal
/// value.
///
/// On success the capture reports the record verbatim: its rank word, its
/// `rank` shape words, the literal tag, and exactly its `count` payload
/// bytes. A buffer too short for the header, or whose claimed sizes outrun
/// it, is `Malformed`; a complete header whose type word is not the literal
/// tag is a `TypeMismatch` — each if and only if.
pub fn decode_binary(bytes: &[u8]) -> (r: Result<JBin, JError>)
    ensures
        r is Ok <==> bin_parses(bytes@),
        r matches Ok(jb) ==> {
            &&& jb.wf()
            &&& jb.rank == rank_word(bytes@)
            &&& jb.tag == TAG_LIT
            &&& jb.data@.len() == count_word(bytes@)
            &&& jb.shape@.len() == rank_word(bytes@)
            &&& forall|i: int|
                0 <= i < jb.shape@.len() ==> jb.shape@[i] == word_at(bytes@, 4 + i)
            &&& jb.data@ == bytes@.subrange(
                32 + 8 * (rank_word(bytes@) as int),
                32 + 8 * (rank_word(bytes@) as int) + count_word(bytes@) as int,
            )
        },
        r matches Err(e) ==> {
            &&& (e is TypeMismatch <==> header_ok(bytes@) && type_word(bytes@) != TAG_LIT as u64)
            &&& (e is Malformed <==> !header_ok(bytes@) || (type_word(bytes@) == TAG_LIT as u64
                && !sizes_ok(bytes@)))
        },
{
    let len = bytes.len();
    if len < 32 {
        return Err(JError::Malformed);
    }
    let tag = read_word(bytes, 1);
    if tag != TAG_LIT as u64 {
        return Err(JError::TypeMismatch);
    }
    let count = read_word(bytes, 2);
    let rank = read_word(bytes, 3);
    proof {
        vstd::arithmetic::div_mod::lemma_fundamental_div_mod((len - 32) as int, 8);
        vstd::arithmetic::div_mod::lemma_mod_pos_bound((len - 32) as int, 8);
    }
    if rank > ((len - 32) / 8) as u64 {
        // more claimed shape words than even an empty payload would leave room for
        return Err(JError::Malformed);
    }
    let shape_bytes = 8 * (rank as usize);
    if count > (len - 32 - shape_bytes) as u64 {
        return Err(JError::Malformed);
    }
    let mut shape: Vec<u64> = Vec::new();
    let mut i: usize = 0;
    while i < rank as usize
        invariant
            i <= rank_word(bytes@),
            rank == rank_word(bytes@),
            32 + 8 * (rank_word(bytes@) as int) <= bytes@.len(),
            bytes@.len() <= usize::MAX,
            shape@.len() == i,
            forall|j: int| 0 <= j < i ==> shape@[j] == word_at(bytes@, 4 + j),
        decreases rank_word(bytes@) - i,
    {
        shape.push(read_word(bytes, 4 + i));
        i = i + 1;
    }
    let start = 32 + shape_bytes;
    let mut data: Vec<u8> = Vec::new();
    let mut j: usize = 0;
    while j < count as usize
        invariant
            j <= count_word(bytes@),
            count == count_word(bytes@),
            start == 32 + 8 * (rank_word(bytes@) as int),
            start + count_word(bytes@) <= bytes@.len(),
            bytes@.len() <= usize::MAX,
            data@.len() == j,
            forall|m: int| 0 <= m < j ==> data@[m] == bytes@[start + m],
        decreases count_word(bytes@) - j,
    {
        data.push(bytes[start + j]);
        j = j + 1;
    }
    proof {
        assert(data@ =~= bytes@.subrange(
            32 + 8 * (rank_word(bytes@) as int),
            32 + 8 * (rank_word(bytes@) as int) + count_word(bytes@) as int,
        ));
    }
    Ok(JBin { rank: rank as i64, shape, tag: TAG_LIT, data })
}

} // verus!
