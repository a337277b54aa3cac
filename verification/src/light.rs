//! The light, which circles the vertical axis by one step per frame.

use vstd::prelude::*;
use crate::layout::GroupLayout;
use crate::vertex::{phase_after, STEPS_PER_TURN};

verus! {

/// The light, as the count of the steps that it has circled within the turn.
#[derive(Clone, Copy, Debug, PartialEq, Eq, Structural)]
pub struct LightBundle {
    pub phase: u32,
}

impl LightBundle {
    /// The phase lies within one turn.
    pub open spec fn wf(&self) -> bool {
        self.phase < STEPS_PER_TURN
    }

    /// The light at its starting position.
    pub fn new() -> (light: Self)
        ensures
            light.phase == 0,
            light.wf(),
    {
        LightBundle { phase: 0 }
    }

    /// The layout of the light's bind group: one uniform, seen by both stages.
    pub fn layout() -> (layout: GroupLayout)
        ensures
            layout == GroupLayout::Light,
    {
        GroupLayout::Light
    }

    /// Moves the light on by one step.
    pub fn update(&mut self)
        requires
            old(self).wf(),
        ensures
            final(self).phase == phase_after(old(self).phase),
            final(self).wf(),
    {
        self.phase = (self.phase + 1) % STEPS_PER_TURN;
    }
}

} // verus!
