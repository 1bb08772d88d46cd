//! Decoding an engine-reported descriptor into a [`JVal`].
//!
//! The engine's "describe by reference" accessor reports a value as a type
//! tag, a rank, a shape buffer and a data buffer. The caller copies the
//! reported words out of engine memory — exactly `rank` shape words, and
//! exactly as many data words as [`int_words_to_read`] says — and hands the
//! copies here as plain values. Everything after the copy is checked logic.

use vstd::arithmetic::overflow::CheckedU64;
use vstd::prelude::*;

use crate::value::{count_of, val_eq, JData, JVal, JI, TAG_BOX, TAG_INT};

verus! {

/// What the decoder promises of its result: the reported rank and shape are
/// kept verbatim, and the payload is dispatched on the type tag. An integer
/// tag yields the data words (a lone atom at rank 0); a boxed tag yields a
/// boxed value with its contents left undecoded; any other tag yields the
/// unrecognized marker.
pub open spec fn is_decoded(t: JI, rank: JI, shape: Seq<JI>, data: Seq<JI>, r: JVal) -> bool {
    &&& r.rank == rank
    &&& r.shape@ == shape
    &&& if t == TAG_INT {
            if rank == 0 {
                r.data matches JData::Int(x) && x == data[0]
            } else {
                r.data matches JData::IntV(v) && v@ == data
            }
        } else if t == TAG_BOX {
            r.data matches JData::Boxed(c) && c@.len() == 0
        } else {
            r.data is Other
        }
}

/// The number of elements a reported shape describes, or `None` when the
/// product does not even fit in 64 bits (no real buffer can be that large).
///
/// The empty shape of a scalar counts as one element.
pub fn element_count(shape: &Vec<JI>) -> (r: Option<u64>)
    requires
        forall|i: int| 0 <= i < shape@.len() ==> 0 <= #[trigger] shape@[i],
    ensures
        match r {
            Some(c) => c == count_of(shape@),
            None => count_of(shape@) > u64::MAX,
        },
{
    let mut c = CheckedU64::new(1);
    let mut i: usize = 0;
    while i < shape.len()
        invariant
            0 <= i <= shape@.len(),
            forall|j: int| 0 <= j < shape@.len() ==> 0 <= #[trigger] shape@[j],
            c@ == count_of(shape@.take(i as int)),
        decreases shape@.len() - i,
    {
        let d = shape[i];
        c = c.mul_value(d as u64);
        proof {
            assert(shape@.take(i + 1 as int).drop_last() =~= shape@.take(i as int));
            assert(shape@.take(i + 1 as int).last() == shape@[i as int]);
        }
        i = i + 1;
    }
    proof {
        assert(shape@.take(shape@.len() as int) =~= shape@);
    }
    if c.is_overflowed() {
        None
    } else {
        Some(c.unwrap())
    }
}

/// How many data words the caller must copy out of the engine's data buffer
/// for a value of type tag `t` with `count` elements: every element of an
/// integer array, and nothing at all for any other tag.
pub fn int_words_to_read(t: JI, count: u64) -> (r: u64)
    ensures
        r == if t == TAG_INT { count as int } else { 0 },
{
    if t == TAG_INT {
        count
    } else {
        0
    }
}

/// Turns the copied-out parts of an engine descriptor into a [`JVal`].
///
/// The reported rank, shape and count are trusted as ground truth, so the
/// caller owes exactly `rank` shape words (each non-negative) and the data
/// words [`int_words_to_read`] asked for. The result is a well-formed
/// snapshot that reproduces the reported rank and shape verbatim and
/// carries the payload [`is_decoded`] describes.
pub fn decode_value(t: JI, rank: JI, shape: Vec<JI>, data: Vec<JI>) -> (r: JVal)
    requires
        0 <= rank,
        shape@.len() == rank,
        forall|i: int| 0 <= i < shape@.len() ==> 0 <= #[trigger] shape@[i],
        data@.len() == if t == TAG_INT { count_of(shape@) } else { 0 },
    ensures
        is_decoded(t, rank, shape@, data@, r),
        r.wf(),
{
    let data = if t == TAG_INT {
        if rank == 0 {
            proof {
                assert(count_of(shape@) == 1);
            }
            JData::Int(data[0])
        } else {
            JData::IntV(data)
        }
    } else if t == TAG_BOX {
        JData::Boxed(Vec::new())
    } else {
        JData::Other
    };
    JVal { rank, shape, data }
}

/// Law: decoding reproduces an integer value exactly.
///
/// Take any well-formed integer value `v` in the decoder's own form (a lone
/// atom at rank 0, an element vector otherwise). If the engine reports back
/// the rank, the shape and the element sequence that define `v` — which is
/// what binding `v` to a name and describing that name yields — then the
/// decoded result equals `v`: the round trip loses nothing.
pub proof fn lemma_int_round_trip(v: JVal, r: JVal)
    requires
        v.wf(),
        v.rank == 0 ==> v.data is Int,
        v.rank != 0 ==> v.data is IntV,
        is_decoded(TAG_INT, v.rank, v.shape@, int_elements(v), r),
    ensures
        val_eq(r, v),
{
}

/// The element sequence of an integer value: the lone atom of a scalar, or
/// the element vector of an array.
pub open spec fn int_elements(v: JVal) -> Seq<JI> {
    match v.data {
        JData::Int(x) => seq![x],
        JData::IntV(xs) => xs@,
        _ => Seq::empty(),
    }
}

/// Law: decoding is repeatable.
///
/// Two decodes of one unchanged descriptor — the same tag, rank, shape and
/// data words — yield equal values, so reading a binding twice in a row
/// returns the same result both times.
pub proof fn lemma_decode_repeatable(t: JI, rank: JI, shape: Seq<JI>, data: Seq<JI>, r1: JVal, r2: JVal)
    requires
        is_decoded(t, rank, shape, data, r1),
        is_decoded(t, rank, shape, data, r2),
    ensures
        val_eq(r1, r2),
{
}

} // verus!
