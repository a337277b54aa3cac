//! What every render pass of the renderer offers.

use vstd::prelude::*;
use crate::command::Command;
use crate::surface::{Size, SurfaceConfig};

verus! {

/// A pass that draws into a frame and owns what it needs for that.
pub trait RenderPass: Sized {
    /// The size of the surface for which the pass holds its resources.
    spec fn target_size(&self) -> Size;

    /// The commands that the pass records.
    spec fn commands(&self) -> Seq<Command>;

    /// Whether the pass may be recorded behind `recorded`.
    spec fn may_follow(&self, recorded: Seq<Command>) -> bool;

    /// Builds the pass for a surface of the given configuration.
    fn new(config: &SurfaceConfig) -> (pass: Self)
        ensures
            pass.target_size() == config.size(),
    ;

    /// Rebuilds what depends on the surface's size; what the pass records stays the same.
    fn resize(&mut self, config: &SurfaceConfig)
        ensures
            final(self).target_size() == config.size(),
            final(self).commands() == old(self).commands(),
    ;

    /// Whether the pass may be recorded behind what `encoder` holds.
    fn may_render(&self, encoder: &Vec<Command>) -> (may: bool)
        ensures
            may == self.may_follow(encoder@),
    ;

    /// Records the pass behind what `encoder` holds, which has to be
    /// something that the pass may follow.
    fn render(&mut self, encoder: &mut Vec<Command>)
        requires
            old(self).may_follow(old(encoder)@),
        ensures
            final(encoder)@ == old(encoder)@ + old(self).commands(),
            final(self).target_size() == old(self).target_size(),
            final(self).commands() == old(self).commands(),
    ;

    /// Brings the pass's own state up to date before a frame.
    fn update(&mut self)
        ensures
            final(self).target_size() == old(self).target_size(),
            final(self).commands() == old(self).commands(),
    ;
}

} // verus!
