//! A ghost measure: how many elements a cell chain carries.
//!
//! Length is fixed by the shape alone, but it is most convenient to read it
//! off a value, so the measure is a spec function over values. Every cell
//! shape has one: a `Unit` carries one element, a `Pair` one more than its
//! rest.

use vstd::prelude::*;
use crate::cells::Pair;
use crate::cells::Unit;

verus! {

/// The number of elements a cell chain carries.
pub trait Len {
    /// How many elements `self` carries.
    spec fn spec_len(&self) -> nat;
}

impl<T> Len for Unit<T> {
    open spec fn spec_len(&self) -> nat {
        1
    }
}

impl<First, Second: Len> Len for Pair<First, Second> {
    open spec fn spec_len(&self) -> nat {
        1 + self.1.spec_len()
    }
}

} // verus!
