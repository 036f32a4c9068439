//! Per-tick redraw decision of the render loop.
//!
//! Each tick the loop learns whether this is the first frame, whether the
//! viewport changed, whether navigation input changed the camera, and
//! whether the channel yielded a fresh point-cloud snapshot. `RenderState`
//! retains the most recent snapshot ever taken, reusing it on ticks where
//! none is ready, and decides whether to redraw at all: if nothing fired,
//! the loop skips rendering and buffer presentation entirely.

use vstd::prelude::*;
use crate::frame::PointCloudFrame;

verus! {

/// What the render loop carries from tick to tick: the last snapshot it
/// ever took from the channel, if any.
pub struct RenderState {
    retained: Option<PointCloudFrame>,
}

impl RenderState {
    /// The most recent snapshot ever taken; `None` until the first one.
    pub closed spec fn retained_spec(self) -> Option<PointCloudFrame> {
        self.retained
    }

    /// Before the first tick nothing has ever been displayed.
    pub fn new() -> (s: RenderState)
        ensures
            s.retained_spec() is None,
    {
        RenderState { retained: None }
    }

    /// One tick's decision: redraw exactly when this is the first frame,
    /// the viewport changed, navigation changed the camera, or a fresh
    /// snapshot arrived. A fresh snapshot replaces the retained one; on a
    /// tick without one the prior snapshot is kept. The returned flag is
    /// also whether the tick presents its buffer.
    pub fn on_tick(
        &mut self,
        first_frame: bool,
        viewport_changed: bool,
        nav_changed: bool,
        fresh: Option<PointCloudFrame>,
    ) -> (redraw: bool)
        ensures
            redraw <==> (first_frame || viewport_changed || nav_changed || fresh is Some),
            fresh is Some ==> final(self).retained_spec() == fresh,
            fresh is None ==> final(self).retained_spec() == old(self).retained_spec(),
            final(self).retained_spec() is Some <==> (old(self).retained_spec() is Some
                || fresh is Some),
    {
        let mut redraw: bool = first_frame || viewport_changed || nav_changed;
        match fresh {
            Some(f) => {
                redraw = true;
                self.retained = Some(f);
            },
            None => {},
        }
        redraw
    }

    /// The snapshot the loop should display this tick, if any exists yet.
    pub fn current_frame(&self) -> (r: &Option<PointCloudFrame>)
        ensures
            *r == self.retained_spec(),
    {
        &self.retained
    }
}

} // verus!
