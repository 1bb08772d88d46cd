//! Value-marshaling layer for driving an embedded array-language engine.
//!
//! The engine itself is a foreign shared library reached over a C ABI; the
//! host-side plumbing that loads it and walks its memory lives outside this
//! crate. What lives here is everything that can be stated and checked as
//! plain logic: the typed value model (`JVal`), the decoder that turns an
//! engine-reported descriptor into such a value, the reader for the engine's
//! fixed binary record layout, and the sentence-building conventions of the
//! scratch-variable command protocol.

pub mod binary;
pub mod decode;
pub mod error;
pub mod protocol;
pub mod session;
pub mod value;
