//! Frame stepping of an animated sprite: the atlas index walks from the
//! first frame toward the last and wraps around.

use vstd::prelude::*;

verus! {

/// The frame range of a sprite's animation within its texture atlas.
#[derive(Clone, Copy, Debug, Default, PartialEq, Eq, Structural)]
pub struct AnimationIndices {
    pub first: usize,
    pub last: usize,
}

impl AnimationIndices {
    /// The frame after `index`: one further, wrapping back to the first
    /// frame when the step reaches the last one.
    pub fn next(&self, index: usize) -> (next_index: usize)
        requires
            index < usize::MAX,
        ensures
            next_index == if index + 1 >= self.last {
                self.first as int
            } else {
                index + 1
            },
    {
        let index = index + 1;
        if index >= self.last {
            self.first
        } else {
            index
        }
    }
}

} // verus!
