//! The point light's share of the frame state: how far it has gone round
//! the world's vertical axis.

use vstd::prelude::*;
use crate::angle::Degrees;

verus! {

/// Degrees that the light moves along its orbit each frame.
pub const LIGHT_STEP: u16 = 1;

/// The light, by the angle it has orbited from where it started.
#[derive(Clone, Copy, Debug, PartialEq, Eq, Structural)]
pub struct LightResources {
    pub orbit: Degrees,
}

impl LightResources {
    /// The orbit angle is reduced.
    pub open spec fn wf(self) -> bool {
        self.orbit.wf()
    }

    /// The light at its starting point.
    pub open spec fn at_start() -> LightResources {
        LightResources { orbit: Degrees::spec_new(0) }
    }

    /// The light after moving `delta` further along its orbit.
    pub open spec fn ticked(self, delta: Degrees) -> LightResources {
        LightResources { orbit: self.orbit.spec_plus(delta) }
    }

    /// The light at its starting point.
    pub fn new() -> (light: LightResources)
        ensures
            light == LightResources::at_start(),
            light.wf(),
    {
        LightResources { orbit: Degrees::zero() }
    }

    /// Moves the light `delta` further along its orbit.
    pub fn tick(&mut self, delta: Degrees)
        ensures
            *final(self) == old(self).ticked(delta),
            final(self).wf(),
    {
        self.orbit = self.orbit.plus(delta);
    }
}

} // verus!
