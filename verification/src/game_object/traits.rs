//! What every entity can do: advance in time, and lay out its geometry.

use vstd::prelude::*;

verus! {

/// An entity that moves as time passes.
pub trait Step: View {
    /// Whether the entity is well formed and is still within the storable range
    /// after `dt` milliseconds.
    spec fn can_step(&self, dt: i64) -> bool;

    /// The entity's model `dt` milliseconds later.
    spec fn stepped(v: Self::V, dt: i64) -> Self::V;

    /// Decides `can_step` at run time.
    fn check_step(&self, dt: i64) -> (ok: bool)
        ensures
            ok == self.can_step(dt),
    ;

    /// Advances the entity by `dt` milliseconds.
    fn step(&mut self, dt: i64)
        requires
            old(self).can_step(dt),
        ensures
            final(self)@ == Self::stepped(old(self)@, dt),
    ;
}

/// An entity that is drawn as indexed triangles in normalized device
/// coordinates.
pub trait Draw: View {
    /// Whether the entity is well formed and the arena has a positive extent on
    /// both axes.
    spec fn can_draw(&self, win_width: i64, win_height: i64) -> bool;

    /// The model with its vertex buffer laid out for the given arena.
    spec fn drawn(v: Self::V, win_width: i64, win_height: i64) -> Self::V;

    /// The model with both buffers laid out for the given arena.
    spec fn prepared(v: Self::V, win_width: i64, win_height: i64) -> Self::V;

    /// Lays out the vertex buffer and writes the index buffer, as both are
    /// first handed to the graphics context.
    fn init_gl(&mut self, win_width: i64, win_height: i64)
        requires
            old(self).can_draw(win_width, win_height),
        ensures
            final(self)@ == Self::prepared(old(self)@, win_width, win_height),
    ;

    /// Lays out the vertex buffer afresh from the entity's present state.
    fn draw(&mut self, win_width: i64, win_height: i64)
        requires
            old(self).can_draw(win_width, win_height),
        ensures
            final(self)@ == Self::drawn(old(self)@, win_width, win_height),
    ;
}

} // verus!
