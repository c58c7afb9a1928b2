//! The viewport tracker: the current window size, replaced wholesale by
//! each resize notification, and the bottom boundary derived from it.

use vstd::prelude::*;

use crate::units::{COORD_LIMIT, DEFAULT_VIEWPORT_HEIGHT, DEFAULT_VIEWPORT_WIDTH};

verus! {

/// The y-coordinate of the lower collision boundary for a viewport of the
/// given height and a ball of the given half-extent: half the height below
/// the centre, raised by the half-extent. Meaningful for positive heights;
/// collision response skips non-positive ones.
pub open spec fn bottom_spec(height: int, radius: int) -> int {
    -(height / 2 - radius)
}

/// The current viewport size, in subunits. A single instance is owned by
/// the host, written only by its resize handler, and read by collision
/// response at tick start.
#[derive(Clone, Copy, Debug, PartialEq, Eq, Structural)]
pub struct Viewport {
    pub width: i64,
    pub height: i64,
}

impl Viewport {
    /// Whether both dimensions are small enough for boundary arithmetic.
    pub open spec fn wf(&self) -> bool {
        &&& -COORD_LIMIT <= self.width <= COORD_LIMIT
        &&& -COORD_LIMIT <= self.height <= COORD_LIMIT
    }

    /// The size assumed before any resize notification arrives.
    pub fn new_default() -> (v: Viewport)
        ensures
            v.width == DEFAULT_VIEWPORT_WIDTH,
            v.height == DEFAULT_VIEWPORT_HEIGHT,
            v.wf(),
    {
        Viewport { width: DEFAULT_VIEWPORT_WIDTH, height: DEFAULT_VIEWPORT_HEIGHT }
    }

    /// Builds a tracker holding the given size.
    pub fn new(width: i64, height: i64) -> (v: Viewport)
        requires
            -COORD_LIMIT <= width <= COORD_LIMIT,
            -COORD_LIMIT <= height <= COORD_LIMIT,
        ensures
            v.width == width,
            v.height == height,
            v.wf(),
    {
        Viewport { width, height }
    }

    /// Applies one resize notification: both dimensions are fully
    /// replaced, nothing else changes and no body is touched.
    pub fn resize(&mut self, width: i64, height: i64)
        requires
            -COORD_LIMIT <= width <= COORD_LIMIT,
            -COORD_LIMIT <= height <= COORD_LIMIT,
        ensures
            final(self).width == width,
            final(self).height == height,
            final(self).wf(),
    {
        self.width = width;
        self.height = height;
    }

    /// Applies a queue of resize notifications in arrival order. Each one
    /// replaces the size, so only the last is observed; an empty queue
    /// leaves the tracker unchanged.
    pub fn apply_resize_events(&mut self, events: &Vec<(i64, i64)>)
        requires
            old(self).wf(),
            forall|i: int|
                0 <= i < events@.len() ==> (-COORD_LIMIT <= #[trigger] events@[i].0 <= COORD_LIMIT
                    && -COORD_LIMIT <= events@[i].1 <= COORD_LIMIT),
        ensures
            final(self).wf(),
            events@.len() == 0 ==> *final(self) == *old(self),
            events@.len() > 0 ==> final(self).width == events@[events@.len() - 1].0
                && final(self).height == events@[events@.len() - 1].1,
    {
        let n: usize = events.len();
        let mut i: usize = 0;
        while i < n
            invariant
                n == events@.len(),
                0 <= i <= n,
                self.wf(),
                i == 0 ==> *self == *old(self),
                i > 0 ==> self.width == events@[i - 1].0 && self.height == events@[i - 1].1,
                forall|j: int|
                    0 <= j < n ==> (-COORD_LIMIT <= #[trigger] events@[j].0 <= COORD_LIMIT
                        && -COORD_LIMIT <= events@[j].1 <= COORD_LIMIT),
            decreases n - i,
        {
            let (w, h) = events[i];
            self.resize(w, h);
            i = i + 1;
        }
    }

    /// The bottom boundary for the current height and the given ball
    /// half-extent.
    pub fn bottom_boundary(&self, radius: i64) -> (b: i64)
        requires
            self.wf(),
            self.height >= 1,
            0 <= radius <= COORD_LIMIT,
        ensures
            b == bottom_spec(self.height as int, radius as int),
    {
        -(self.height / 2 - radius)
    }
}

} // verus!
