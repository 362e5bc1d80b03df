//! The partial map cursor: walking a sequence while rebuilding it.
//!
//! A cursor holds a source remainder and a destination prefix. Each `next`
//! moves one element from the head of the source to the far end of the
//! destination; `replace` swaps the element that `next` would move for a
//! new value. The state is encoded entirely in the cursor's shape, and at
//! most one of the three shape cases below applies to any reachable
//! cursor: the destination is still a single cell, the destination is a
//! sequence, or the source is down to a single cell. A cursor seeded from
//! a two-element sequence fits none of them: both of its sides are single
//! cells, and its walk can go no further.

use vstd::prelude::*;
use crate::append::With;
use crate::cells::Pair;
use crate::cells::Unit;
use crate::length::Len;
use crate::seq_cap::TySeq;

verus! {

/// An in-progress traversal: `src` is the remaining input, `dst` the output
/// accumulated so far.
pub struct PartialTySeqMap<Src, Dst> {
    /// The remaining input: a sequence, or a `Unit` at the final step.
    pub src: Src,
    /// The accumulated output: a `Unit` after one step, a sequence after.
    pub dst: Dst,
}

impl<First, Second> Pair<First, Second> where Self: TySeq {
    /// Swap the head for `value`: the old head, and the sequence with the
    /// head replaced and the tail untouched.
    pub fn replace<NewValue>(self, value: NewValue) -> (r: (First, Pair<NewValue, Second>))
        ensures
            r.0 == self.0,
            r.1 == (Pair(value, self.1)),
    {
        (self.0, Pair(value, self.1))
    }

    /// Seed a traversal: the cursor whose source is the sequence without
    /// its first element and whose destination holds that element alone.
    pub fn next(self) -> (r: PartialTySeqMap<
        <Self as TySeq>::WithoutFirst,
        Unit<<Self as TySeq>::First>,
    >)
        ensures
            r.src == self.spec_without_first(),
            r.dst == (Unit(self.spec_first())),
            r.src.spec_len() == self.spec_len() - 1,
    {
        proof {
            self.lemma_len();
        }
        let (head, tail) = self.first();
        PartialTySeqMap { src: tail, dst: Unit(head) }
    }
}

impl<T, Src: TySeq<First = T>, U> PartialTySeqMap<Src, Unit<U>> {
    /// One step while the destination is still a single cell: the source's
    /// head moves behind the destination's one element.
    pub fn next(self) -> (r: PartialTySeqMap<Src::WithoutFirst, Pair<U, Unit<Src::First>>>)
        ensures
            r.src == self.src.spec_without_first(),
            r.dst == (Pair(self.dst.0, Unit(self.src.spec_first()))),
            r.src.spec_len() == self.src.spec_len() - 1,
            r.dst.spec_len() == 2,
    {
        proof {
            self.src.lemma_len();
        }
        let (head, tail) = self.src.first();
        PartialTySeqMap { src: tail, dst: Pair(self.dst.0, Unit(head)) }
    }

    /// Swap the element that `next` would move for `value`: the old source
    /// head, and the cursor with the source head replaced.
    pub fn replace<NewValue>(self, value: NewValue) -> (r: (
        Src::First,
        PartialTySeqMap<Pair<NewValue, Src::WithoutFirst>, Unit<U>>,
    ))
        ensures
            r.0 == self.src.spec_first(),
            r.1.src == (Pair(value, self.src.spec_without_first())),
            r.1.src.spec_len() == self.src.spec_len(),
            r.1.dst == self.dst,
    {
        proof {
            self.src.lemma_len();
        }
        let (head, tail) = self.src.first();
        (head, PartialTySeqMap { src: Pair(value, tail), dst: self.dst })
    }
}

impl<T, Src: TySeq<First = T>, Dst: TySeq + With<T>> PartialTySeqMap<Src, Dst> {
    /// One step while both sides are sequences: the source's head is
    /// appended at the far end of the destination.
    pub fn next(self) -> (r: PartialTySeqMap<
        <Src as TySeq>::WithoutFirst,
        <Dst as With<T>>::WithValue,
    >)
        ensures
            r.src == self.src.spec_without_first(),
            r.dst == self.dst.spec_with(self.src.spec_first()),
            r.src.spec_len() == self.src.spec_len() - 1,
            r.dst.spec_len() == self.dst.spec_len() + 1,
    {
        proof {
            self.src.lemma_len();
            self.dst.lemma_with_len(self.src.spec_first());
        }
        let (src_head, src_tail) = self.src.first();
        PartialTySeqMap { src: src_tail, dst: self.dst.with(src_head) }
    }

    /// Swap the element that `next` would move for `value`: the old source
    /// head, and the cursor with the source head replaced.
    pub fn replace<NewValue>(self, value: NewValue) -> (r: (
        <Src as TySeq>::First,
        PartialTySeqMap<Pair<NewValue, <Src as TySeq>::WithoutFirst>, Dst>,
    ))
        ensures
            r.0 == self.src.spec_first(),
            r.1.src == (Pair(value, self.src.spec_without_first())),
            r.1.src.spec_len() == self.src.spec_len(),
            r.1.dst == self.dst,
    {
        proof {
            self.src.lemma_len();
        }
        let (head, tail) = self.src.first();
        (head, PartialTySeqMap { src: Pair(value, tail), dst: self.dst })
    }
}

impl<T, Dst: TySeq + With<T>> PartialTySeqMap<Unit<T>, Dst> {
    /// The final step: the source's one element is appended at the far end
    /// of the destination, and the finished sequence is returned. It holds
    /// every element the traversal has seen, in the order of the walk.
    pub fn next(self) -> (r: <Dst as With<T>>::WithValue)
        ensures
            r == self.dst.spec_with(self.src.0),
            r.spec_len() == self.dst.spec_len() + 1,
    {
        proof {
            self.dst.lemma_with_len(self.src.0);
        }
        self.dst.with(self.src.0)
    }

    /// Swap the final element for `value`: the old element, and the cursor
    /// with the source cell refilled.
    pub fn replace<NewValue>(self, value: NewValue) -> (r: (
        T,
        PartialTySeqMap<Unit<NewValue>, Dst>,
    ))
        ensures
            r.0 == self.src.0,
            r.1.src == (Unit(value)),
            r.1.dst == self.dst,
    {
        (self.src.0, PartialTySeqMap { src: Unit(value), dst: self.dst })
    }
}

} // verus!
