//! Whole-degree angles on the circle.
//!
//! Every rotation that the scene accumulates frame by frame is a turn about
//! the world's vertical axis by a whole number of degrees, so the running
//! total can be kept exactly, reduced modulo a full turn.

use vstd::prelude::*;
use vstd::arithmetic::div_mod::{lemma_add_mod_noop, lemma_small_mod};

verus! {

/// Degrees in one full turn.
pub const FULL_TURN: u16 = 360;

/// An angle in whole degrees. A well-formed angle lies in `0..360`.
#[derive(Clone, Copy, Debug, PartialEq, Eq, Structural)]
pub struct Degrees {
    pub value: u16,
}

impl Degrees {
    /// The angle is reduced to the range of one turn.
    pub open spec fn wf(self) -> bool {
        self.value < FULL_TURN
    }

    /// The angle of `raw` degrees, reduced modulo a full turn.
    pub open spec fn spec_new(raw: int) -> Degrees {
        Degrees { value: (raw % 360) as u16 }
    }

    /// The sum of two angles, reduced modulo a full turn.
    pub open spec fn spec_plus(self, other: Degrees) -> Degrees {
        Degrees::spec_new(self.value + other.value)
    }

    /// The angle reached by adding `step` to `self` `count` times over.
    pub open spec fn spec_plus_times(self, step: Degrees, count: nat) -> Degrees
        decreases count,
    {
        if count == 0 {
            self
        } else {
            self.spec_plus_times(step, (count - 1) as nat).spec_plus(step)
        }
    }

    /// The angle of `raw` degrees, reduced modulo a full turn.
    pub fn new(raw: u32) -> (d: Degrees)
        ensures
            d == Degrees::spec_new(raw as int),
            d.wf(),
    {
        Degrees { value: (raw % 360) as u16 }
    }

    /// The zero angle.
    pub fn zero() -> (d: Degrees)
        ensures
            d == Degrees::spec_new(0),
            d.value == 0,
            d.wf(),
    {
        Degrees { value: 0 }
    }

    /// The number of degrees, as stored.
    pub fn value(&self) -> (v: u16)
        ensures
            v == self.value,
    {
        self.value
    }

    /// The sum of two angles, reduced modulo a full turn. Total: operands
    /// outside `0..360` are reduced first.
    pub fn plus(self, other: Degrees) -> (d: Degrees)
        ensures
            d == self.spec_plus(other),
            d.wf(),
    {
        let a: u16 = self.value % 360;
        let b: u16 = other.value % 360;
        proof {
            lemma_add_mod_noop(self.value as int, other.value as int, 360);
        }
        Degrees { value: (a + b) % 360 }
    }
}

/// Adding the zero angle leaves a well-formed angle as it is.
pub proof fn lemma_plus_zero(d: Degrees)
    requires
        d.wf(),
    ensures
        d.spec_plus(Degrees::spec_new(0)) == d,
        Degrees::spec_new(0).spec_plus(d) == d,
{
    lemma_small_mod(d.value as nat, 360);
}

/// Adding `step` to `start` `count` times over gives `start + count * step`
/// degrees, reduced modulo a full turn.
pub proof fn lemma_plus_times(start: Degrees, step: Degrees, count: nat)
    requires
        start.wf(),
    ensures
        start.spec_plus_times(step, count) == Degrees::spec_new(start.value + count * step.value),
        start.spec_plus_times(step, count).wf(),
    decreases count,
{
    if count == 0 {
        assert(count * step.value == 0) by (nonlinear_arith)
            requires
                count == 0,
        ;
        lemma_small_mod(start.value as nat, 360);
    } else {
        let before = (count - 1) as nat;
        lemma_plus_times(start, step, before);
        let total = start.value + before * step.value;
        assert(count * step.value == before * step.value + step.value) by (nonlinear_arith)
            requires
                count == before + 1,
        ;
        lemma_add_mod_noop(total, step.value as int, 360);
        lemma_small_mod((total % 360) as nat, 360);
        lemma_add_mod_noop(total % 360, step.value as int, 360);
    }
}

} // verus!
