//! The append capability: extending a sequence at its far end.
//!
//! A shape satisfies [`With`] for a value type iff appending one element of
//! that type yields a well-defined sequence shape. The laws that relate
//! appending to splitting stand in the laws module, whose round-trip
//! capability every appendable shape also satisfies.

use vstd::prelude::*;
use crate::cells::Pair;
use crate::cells::Unit;
use crate::length::Len;
use crate::seq_cap::TySeq;

verus! {

/// A sequence that one more element of type `Value` can be appended to.
pub trait With<Value>: TySeq {
    /// The shape produced by appending one element of type `Value`.
    type WithValue: Len;

    /// The chain with `value` appended at the far end.
    spec fn spec_with(&self, value: Value) -> Self::WithValue;

    /// Appending grows the length by exactly one.
    proof fn lemma_with_len(&self, value: Value)
        ensures
            self.spec_with(value).spec_len() == self.spec_len() + 1,
    ;

    /// Append `value` at the far end of the sequence.
    fn with(self, value: Value) -> (r: Self::WithValue)
        ensures
            r == self.spec_with(value),
    ;
}

impl<First, Second, Third> With<Third> for Pair<First, Unit<Second>> {
    type WithValue = Pair<First, Pair<Second, Unit<Third>>>;

    open spec fn spec_with(&self, value: Third) -> Pair<First, Pair<Second, Unit<Third>>> {
        Pair(self.0, Pair(self.1.0, Unit(value)))
    }

    proof fn lemma_with_len(&self, value: Third) {
    }

    fn with(self, value: Third) -> Pair<First, Pair<Second, Unit<Third>>> {
        Pair(self.0, Pair(self.1.0, Unit(value)))
    }
}

impl<First, Second, Tail, Value> With<Value> for Pair<First, Pair<Second, Tail>> where
    Pair<Second, Tail>: TySeq<First = Second> + With<Value>,
 {
    type WithValue = Pair<First, <Pair<Second, Tail> as With<Value>>::WithValue>;

    open spec fn spec_with(&self, value: Value) -> Pair<
        First,
        <Pair<Second, Tail> as With<Value>>::WithValue,
    > {
        Pair(self.0, self.1.spec_with(value))
    }

    proof fn lemma_with_len(&self, value: Value) {
        self.1.lemma_with_len(value);
    }

    fn with(self, value: Value) -> Pair<First, <Pair<Second, Tail> as With<Value>>::WithValue> {
        Pair(self.0, self.1.with(value))
    }
}

} // verus!
