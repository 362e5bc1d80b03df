//! The sequence capability: splitting a chain off either end.
//!
//! A shape satisfies [`TySeq`] iff it is `Pair(First, Unit(Last))` or
//! `Pair(First, rest)` where `rest` itself satisfies the capability. A bare
//! `Unit` is not a sequence: removing its only element would leave no
//! residual sequence to return.

use vstd::prelude::*;
use crate::cells::Pair;
use crate::cells::Unit;
use crate::length::Len;

verus! {

/// A well-formed sequence of length at least two: it has a first element, a
/// last element, and a residual sequence for the removal of either.
pub trait TySeq: Len + Sized {
    /// The type of the element at the head.
    type First;
    /// The type of the element at the terminal `Unit`.
    type Last;
    /// The shape left when the head is dropped.
    type WithoutFirst: Len;
    /// The shape left when the terminal element is dropped.
    type WithoutLast: Len;

    /// The value at the head.
    spec fn spec_first(&self) -> Self::First;

    /// The value at the terminal `Unit`.
    spec fn spec_last(&self) -> Self::Last;

    /// The chain with the head dropped.
    spec fn spec_without_first(&self) -> Self::WithoutFirst;

    /// The chain with the terminal element dropped.
    spec fn spec_without_last(&self) -> Self::WithoutLast;

    /// Length accounting: a sequence holds at least two elements, and
    /// dropping the head or the terminal element drops exactly one.
    proof fn lemma_len(&self)
        ensures
            self.spec_len() >= 2,
            self.spec_without_first().spec_len() == self.spec_len() - 1,
            self.spec_without_last().spec_len() == self.spec_len() - 1,
    ;

    /// Split at the head: the head value, and the sequence minus it.
    fn first(self) -> (r: (Self::First, Self::WithoutFirst))
        ensures
            r.0 == self.spec_first(),
            r.1 == self.spec_without_first(),
    ;

    /// Split at the far end: the sequence minus its terminal element, and
    /// that element.
    fn last(self) -> (r: (Self::WithoutLast, Self::Last))
        ensures
            r.0 == self.spec_without_last(),
            r.1 == self.spec_last(),
    ;
}

impl<First, Last> TySeq for Pair<First, Unit<Last>> {
    type First = First;
    type Last = Last;
    type WithoutFirst = Unit<Last>;
    type WithoutLast = Unit<First>;

    open spec fn spec_first(&self) -> First {
        self.0
    }

    open spec fn spec_last(&self) -> Last {
        self.1.0
    }

    open spec fn spec_without_first(&self) -> Unit<Last> {
        self.1
    }

    open spec fn spec_without_last(&self) -> Unit<First> {
        Unit(self.0)
    }

    proof fn lemma_len(&self) {
    }

    fn first(self) -> (First, Unit<Last>) {
        (self.0, self.1)
    }

    fn last(self) -> (Unit<First>, Last) {
        (Unit(self.0), self.1.0)
    }
}

impl<First, Second, Tail, Last> TySeq for Pair<First, Pair<Second, Tail>> where
    Pair<Second, Tail>: TySeq<First = Second, Last = Last>,
 {
    type First = First;
    type Last = Last;
    type WithoutFirst = Pair<Second, Tail>;
    type WithoutLast = Pair<First, <Pair<Second, Tail> as TySeq>::WithoutLast>;

    open spec fn spec_first(&self) -> First {
        self.0
    }

    open spec fn spec_last(&self) -> Last {
        self.1.spec_last()
    }

    open spec fn spec_without_first(&self) -> Pair<Second, Tail> {
        self.1
    }

    open spec fn spec_without_last(&self) -> Pair<
        First,
        <Pair<Second, Tail> as TySeq>::WithoutLast,
    > {
        Pair(self.0, self.1.spec_without_last())
    }

    proof fn lemma_len(&self) {
        self.1.lemma_len();
    }

    fn first(self) -> (First, Pair<Second, Tail>) {
        (self.0, self.1)
    }

    fn last(self) -> (Pair<First, <Pair<Second, Tail> as TySeq>::WithoutLast>, Last) {
        let (head, tail) = self.first();
        let (tail_without_last, last) = tail.last();
        (Pair(head, tail_without_last), last)
    }
}

} // verus!
