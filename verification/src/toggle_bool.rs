//! Flipping a boolean flag in place.

use vstd::prelude::*;

verus! {

/// A flag that can be flipped in place.
pub trait BoolToggleExt {
    /// The truth value that the flag currently holds.
    spec fn flag(&self) -> bool;

    /// Replaces the flag by its negation.
    fn toggle(&mut self)
        ensures
            final(self).flag() == !old(self).flag(),
    ;
}

impl BoolToggleExt for bool {
    open spec fn flag(&self) -> bool {
        *self
    }

    fn toggle(&mut self)
        ensures
            *final(self) == !*old(self),
    {
        *self = !*self;
    }
}

} // verus!
