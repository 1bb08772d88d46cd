//! The host-side model of an engine value: a typed, ranked, shaped array
//! snapshot that owns all of its data and keeps no tie to engine memory.

use vstd::prelude::*;

verus! {

/// The integer type the engine uses for counts, ranks, shape entries and
/// integer atoms.
pub type JI = i64;

/// Type tag the engine reports for a literal (character) array.
pub const TAG_LIT: JI = 2;

/// Type tag the engine reports for an integer array.
pub const TAG_INT: JI = 4;

/// Type tag the engine reports for a boxed array (an array of values).
pub const TAG_BOX: JI = 32;

/// Payload of a decoded engine value.
///
/// Boxed payloads carry their (never decoded) children: the decoder always
/// leaves the sequence empty, and this crate deliberately preserves that gap
/// rather than inventing recursive semantics. Any type tag the decoder does
/// not recognize becomes `Other`.
#[derive(PartialEq, Eq, Debug)]
pub enum JData {
    /// A single character atom.
    Lit(char),
    /// A character array's elements.
    LitV(Vec<char>),
    /// A single integer atom.
    Int(JI),
    /// An integer array's elements, in row-major order.
    IntV(Vec<JI>),
    /// A boxed array; its contents are intentionally left undecoded.
    Boxed(Vec<JVal>),
    /// A value of a type tag this crate does not recognize.
    Other,
}

/// A decoded engine value: rank, shape and payload.
///
/// Every `JVal` is a fresh snapshot produced by one decode call; it owns
/// copied data and has no residual tie to the engine's buffers.
#[derive(PartialEq, Eq, Debug)]
pub struct JVal {
    /// Number of shape dimensions; 0 for a scalar.
    pub rank: JI,
    /// Extent of each dimension; its length always equals `rank`.
    pub shape: Vec<JI>,
    /// The element data.
    pub data: JData,
}

/// The number of elements a shape describes: the product of its entries,
/// with the empty product (a scalar's shape) counting as 1.
pub open spec fn count_of(shape: Seq<JI>) -> int
    decreases shape.len(),
{
    if shape.len() == 0 {
        1
    } else {
        count_of(shape.drop_last()) * shape.last()
    }
}

/// Whether a payload is consistent with an element count and a rank.
///
/// Scalar payloads go with rank 0; array payloads must hold exactly `count`
/// elements. A boxed payload is exempt because its children are never
/// decoded, and an unrecognized payload carries no data at all.
pub open spec fn data_count_ok(data: JData, count: int, rank: int) -> bool {
    match data {
        JData::Lit(_) => rank == 0,
        JData::LitV(v) => v@.len() == count,
        JData::Int(_) => rank == 0,
        JData::IntV(v) => v@.len() == count,
        JData::Boxed(_) => true,
        JData::Other => true,
    }
}

impl JVal {
    /// Well-formedness: the shape has one non-negative entry per dimension
    /// and the payload size matches the shape's element count.
    pub open spec fn wf(self) -> bool {
        &&& 0 <= self.rank
        &&& self.shape@.len() == self.rank
        &&& forall|i: int| 0 <= i < self.shape@.len() ==> 0 <= #[trigger] self.shape@[i]
        &&& data_count_ok(self.data, count_of(self.shape@), self.rank as int)
    }
}

/// Equality of decoded payloads, element by element.
///
/// Two boxed payloads are alike exactly when both are undecoded (empty):
/// the decoder never fills boxed children, so on decoder output this is
/// full structural equality.
pub open spec fn data_eq(a: JData, b: JData) -> bool {
    match (a, b) {
        (JData::Lit(x), JData::Lit(y)) => x == y,
        (JData::LitV(x), JData::LitV(y)) => x@ == y@,
        (JData::Int(x), JData::Int(y)) => x == y,
        (JData::IntV(x), JData::IntV(y)) => x@ == y@,
        (JData::Boxed(x), JData::Boxed(y)) => x@.len() == 0 && y@.len() == 0,
        (JData::Other, JData::Other) => true,
        _ => false,
    }
}

/// Equality of decoded values: same rank, same shape, same payload.
pub open spec fn val_eq(a: JVal, b: JVal) -> bool {
    &&& a.rank == b.rank
    &&& a.shape@ == b.shape@
    &&& data_eq(a.data, b.data)
}

} // verus!
