//! The two cell constructors that carry every sequence.

use vstd::prelude::*;

verus! {

/// A cell carrying exactly one value: a sequence of length one.
pub struct Unit<T>(pub T);

/// A cell carrying a head value and a rest value. When the rest is itself
/// a `Unit` or a `Pair`, the cell denotes a sequence whose first element is
/// the head and whose remainder is the rest.
pub struct Pair<First, Second>(pub First, pub Second);

impl<T> Unit<T> {
    /// What the builder produces: the one-element cell turned into a
    /// two-element sequence ending in the new value.
    pub open spec fn spec_with<U>(self, value: U) -> Pair<T, Unit<U>> {
        Pair(self.0, Unit(value))
    }

    /// The only way from the length-one world into the length-two world:
    /// put `value` behind the carried element.
    pub fn with<U>(self, value: U) -> (r: Pair<T, Unit<U>>)
        ensures
            r == self.spec_with(value),
    {
        Pair(self.0, Unit(value))
    }
}

} // verus!
