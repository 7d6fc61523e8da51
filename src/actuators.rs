use vstd::prelude::*;

verus! {

/// Level requested for one indicator light.
#[derive(Debug, Clone, Copy, PartialEq, Eq, Structural)]
pub enum Light {
    On,
    Off,
}

/// `true` when the light is to be asserted.
pub open spec fn lit(l: Light) -> bool {
    l == Light::On
}

/// The four binary outputs: the horn and three lights. `true` is asserted.
#[derive(Debug, Clone, Copy, PartialEq, Eq, Structural)]
pub struct ActuatorSet {
    pub horn: bool,
    pub light1: bool,
    pub light2: bool,
    pub light3: bool,
}

/// Every output at its idle (deasserted) level.
pub open spec fn is_idle(a: ActuatorSet) -> bool {
    !a.horn && !a.light1 && !a.light2 && !a.light3
}

/// What a reset leaves behind, from any set of outputs.
pub open spec fn reset_of(a: ActuatorSet) -> ActuatorSet {
    ActuatorSet { horn: false, light1: false, light2: false, light3: false }
}

impl Light {
    /// Whether this level asserts the line.
    pub fn is_on(&self) -> (r: bool)
        ensures
            r == lit(*self),
    {
        match self {
            Light::On => true,
            Light::Off => false,
        }
    }
}

impl ActuatorSet {
    /// The set as it is at boot: every output idle.
    pub fn new() -> (r: ActuatorSet)
        ensures
            is_idle(r),
    {
        ActuatorSet { horn: false, light1: false, light2: false, light3: false }
    }

    /// Forces all four outputs to their idle level, whatever they held.
    pub fn reset_all(&mut self)
        ensures
            *final(self) == reset_of(*old(self)),
            is_idle(*final(self)),
    {
        self.horn = false;
        self.light1 = false;
        self.light2 = false;
        self.light3 = false;
    }

    /// Writes the three lights as one unit; the horn is left as it was.
    pub fn set_lights(&mut self, l1: Light, l2: Light, l3: Light)
        ensures
            final(self).horn == old(self).horn,
            final(self).light1 == lit(l1),
            final(self).light2 == lit(l2),
            final(self).light3 == lit(l3),
    {
        self.light1 = l1.is_on();
        self.light2 = l2.is_on();
        self.light3 = l3.is_on();
    }

    /// Drives the horn line; the lights are left as they were.
    pub fn set_horn(&mut self, on: bool)
        ensures
            *final(self) == (ActuatorSet { horn: on, ..*old(self) }),
    {
        self.horn = on;
    }

    /// Whether every output is at its idle level.
    pub fn idle(&self) -> (r: bool)
        ensures
            r == is_idle(*self),
    {
        !self.horn && !self.light1 && !self.light2 && !self.light3
    }
}

/// A reset brings every output to idle, whatever the outputs held before;
/// resetting twice in a row leaves exactly what resetting once leaves.
pub proof fn lemma_reset_idempotent(a: ActuatorSet)
    ensures
        is_idle(reset_of(a)),
        reset_of(reset_of(a)) == reset_of(a),
{
}

} // verus!
