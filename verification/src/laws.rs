//! The laws the capabilities obey, beyond the contracts on the operations
//! themselves.
//!
//! Laws that hold at every sequence shape stand as proof members of a
//! trait, so that every implementation carries its proof:
//! [`crate::seq_cap::TySeq::lemma_len`], [`With::lemma_with_len`], and
//! [`WithRoundTrip`] and [`WithThenFirst`] here. The free lemmas below
//! complete the picture: per-family statements whose types differ between
//! the base and the recursive shape, and walk laws stated on the smallest
//! shapes that exercise every cursor case.

use vstd::prelude::*;
use vstd::assert_multisets_equal;
use vstd::multiset::Multiset;
use crate::append::With;
use crate::cells::Pair;
use crate::cells::Unit;
use crate::seq_cap::TySeq;

verus! {

/// The round trip of appending and splitting, proved at every appendable
/// shape. Stating it needs the appended shape to be a sequence that drops
/// back to `Self` when its last element is split off; the clause on the
/// trait says so, and both cell families satisfy it.
pub trait WithRoundTrip<Value>: With<Value> where
    Self::WithValue: TySeq<First = Self::First, Last = Value, WithoutLast = Self>,
 {
    /// Appending `value` keeps the first element in place and puts `value`
    /// last, and splitting last afterwards returns exactly the original
    /// sequence and `value`.
    proof fn lemma_with_round_trip(&self, value: Value)
        ensures
            self.spec_with(value).spec_first() == self.spec_first(),
            self.spec_with(value).spec_last() == value,
            self.spec_with(value).spec_without_last() == *self,
    ;
}

impl<First, Second, Third> WithRoundTrip<Third> for Pair<First, Unit<Second>> {
    proof fn lemma_with_round_trip(&self, value: Third) {
    }
}

impl<First, Second, Tail, Value, InnerTail> WithRoundTrip<Value> for Pair<
    First,
    Pair<Second, Tail>,
> where
    Pair<Second, Tail>: TySeq<First = Second> + With<Value, WithValue = Pair<Second, InnerTail>>
        + WithRoundTrip<Value>,
    Pair<Second, InnerTail>: TySeq<First = Second, Last = Value, WithoutLast = Pair<Second, Tail>>,
 {
    proof fn lemma_with_round_trip(&self, value: Value) {
        self.1.lemma_with_round_trip(value);
    }
}

/// Element identity at the base shape: splitting returns the very values
/// stored in the cells, untransformed.
pub proof fn lemma_element_identity_base<First, Last>(s: Pair<First, Unit<Last>>)
    ensures
        s.spec_first() == s.0,
        s.spec_last() == s.1.0,
        s.spec_without_first() == s.1,
        s.spec_without_last() == (Unit(s.0)),
{
}

/// Element identity at the recursive shape: the first element is the head
/// value itself, and the last element is the rest's last, unchanged.
pub proof fn lemma_element_identity_rec<First, Second, Tail>(s: Pair<First, Pair<Second, Tail>>)
    where Pair<Second, Tail>: TySeq<First = Second>,
    ensures
        s.spec_first() == s.0,
        s.spec_last() == s.1.spec_last(),
        s.spec_without_first() == s.1,
        s.spec_without_last() == (Pair(s.0, s.1.spec_without_last())),
{
}

/// Round trip of first and append, base shape: appending `v` and then
/// splitting first yields the old head and the old tail with `v` put
/// behind it by the builder.
pub proof fn lemma_with_then_first_base<First, Second, Value>(
    s: Pair<First, Unit<Second>>,
    v: Value,
)
    ensures
        s.spec_with(v).spec_first() == s.spec_first(),
        s.spec_with(v).spec_without_first() == s.spec_without_first().spec_with(v),
{
}

/// Round trip of first and append at every shape of three or more
/// elements: splitting first commutes with appending. The clauses on the
/// trait give the law its types: the appended shape is a sequence, and its
/// tail is what appending to the tail yields. The two-element shapes,
/// whose tail is a bare cell that appends through the builder instead,
/// satisfy the same law through [`lemma_with_then_first_base`].
pub trait WithThenFirst<Value>: With<Value> where
    Self::WithValue: TySeq<First = Self::First, Last = Value>,
    Self::WithoutFirst: With<Value, WithValue = <Self::WithValue as TySeq>::WithoutFirst>,
 {
    /// Appending `value` and then splitting first yields the old head and
    /// the old tail appended with `value`.
    proof fn lemma_with_then_first(&self, value: Value)
        ensures
            self.spec_with(value).spec_first() == self.spec_first(),
            self.spec_with(value).spec_without_first() == self.spec_without_first().spec_with(
                value,
            ),
    ;
}

impl<First, Second, Tail, Value, InnerTail> WithThenFirst<Value> for Pair<
    First,
    Pair<Second, Tail>,
> where
    Pair<Second, Tail>: TySeq<First = Second> + With<Value, WithValue = Pair<Second, InnerTail>>,
    Pair<Second, InnerTail>: TySeq<First = Second, Last = Value, WithoutLast = Pair<Second, Tail>>,
 {
    proof fn lemma_with_then_first(&self, value: Value) {
    }
}

/// Where a full walk of a four-element sequence arrives: seed a cursor with
/// the head, move one element while the destination is a single cell, one
/// while both sides are sequences, and place the final element.
pub open spec fn spec_walk4<A, B, C, D>(
    s: Pair<A, Pair<B, Pair<C, Unit<D>>>>,
) -> Pair<A, Pair<B, Pair<C, Unit<D>>>> {
    let src0 = s.spec_without_first();
    let dst0 = Unit(s.spec_first());
    let src1 = src0.spec_without_first();
    let dst1 = dst0.spec_with(src0.spec_first());
    let src2 = src1.spec_without_first();
    let dst2 = dst1.spec_with(src1.spec_first());
    dst2.spec_with(src2.0)
}

/// Walking a sequence head-first into a head-first destination rebuilds it:
/// on a four-element sequence, which passes through every cursor case, the
/// finished sequence is the original value, element for element.
pub proof fn lemma_walk_rebuilds<A, B, C, D>(s: Pair<A, Pair<B, Pair<C, Unit<D>>>>)
    ensures
        spec_walk4(s) == s,
{
}

/// The elements a one-cell chain holds, as a multiset.
pub open spec fn spec_elems1<T>(s: Unit<T>) -> Multiset<T> {
    Multiset::empty().insert(s.0)
}

/// The elements a two-element chain holds, as a multiset.
pub open spec fn spec_elems2<T>(s: Pair<T, Unit<T>>) -> Multiset<T> {
    Multiset::empty().insert(s.0).insert(s.1.0)
}

/// The elements a three-element chain holds, as a multiset.
pub open spec fn spec_elems3<T>(s: Pair<T, Pair<T, Unit<T>>>) -> Multiset<T> {
    Multiset::empty().insert(s.0).insert(s.1.0).insert(s.1.1.0)
}

/// Cursor conservation, on a three-element sequence of one element type so
/// that the elements form a multiset: at every stage of a walk the elements
/// held across source and destination are exactly the original elements;
/// and a replace at the seeded cursor extracts one element and introduces
/// the new value, leaving everything else in place.
pub proof fn lemma_walk_conserves<T>(s: Pair<T, Pair<T, Unit<T>>>, v: T)
    ensures
        spec_elems2(s.spec_without_first()).add(spec_elems1(Unit(s.spec_first())))
            == spec_elems3(s),
        spec_elems1(s.spec_without_first().spec_without_first()).add(
            spec_elems2(Pair(s.spec_first(), Unit(s.spec_without_first().spec_first()))),
        ) == spec_elems3(s),
        spec_elems3(
            Pair(s.spec_first(), Unit(s.spec_without_first().spec_first())).spec_with(
                s.spec_without_first().spec_without_first().0,
            ),
        ) == spec_elems3(s),
        spec_elems2(Pair(v, s.spec_without_first().spec_without_first())).add(
            spec_elems1(Unit(s.spec_first())),
        ).insert(s.spec_without_first().spec_first()) == spec_elems3(s).insert(v),
{
    assert_multisets_equal!(
        spec_elems2(s.spec_without_first()).add(spec_elems1(Unit(s.spec_first()))),
        spec_elems3(s)
    );
    assert_multisets_equal!(
        spec_elems1(s.spec_without_first().spec_without_first()).add(
            spec_elems2(Pair(s.spec_first(), Unit(s.spec_without_first().spec_first()))),
        ),
        spec_elems3(s)
    );
    assert_multisets_equal!(
        spec_elems3(
            Pair(s.spec_first(), Unit(s.spec_without_first().spec_first())).spec_with(
                s.spec_without_first().spec_without_first().0,
            ),
        ),
        spec_elems3(s)
    );
    assert_multisets_equal!(
        spec_elems2(Pair(v, s.spec_without_first().spec_without_first())).add(
            spec_elems1(Unit(s.spec_first())),
        ).insert(s.spec_without_first().spec_first()),
        spec_elems3(s).insert(v)
    );
}

} // verus!
