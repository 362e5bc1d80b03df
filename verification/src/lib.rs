//! Heterogeneous sequences held together at the type level.
//!
//! A sequence is a right-nested chain of [`Pair`] cells ending in a [`Unit`]
//! cell; the element types are spelled out by the chain's type. The
//! [`TySeq`] capability splits such a chain off either end, the [`With`]
//! capability appends to it, and [`PartialTySeqMap`] walks it element by
//! element, rebuilding it on the other side.

mod append;
mod cells;
mod cursor;
mod laws;
mod length;
mod seq_cap;

pub use append::With;
pub use cells::Pair;
pub use cells::Unit;
pub use cursor::PartialTySeqMap;
pub use laws::WithRoundTrip;
pub use laws::WithThenFirst;
pub use laws::lemma_element_identity_base;
pub use laws::lemma_element_identity_rec;
pub use laws::lemma_walk_conserves;
pub use laws::lemma_walk_rebuilds;
pub use laws::lemma_with_then_first_base;
pub use laws::spec_elems1;
pub use laws::spec_elems2;
pub use laws::spec_elems3;
pub use laws::spec_walk4;
pub use length::Len;
pub use seq_cap::TySeq;
