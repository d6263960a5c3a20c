//! Timeline of animations driving a scene.

use vstd::prelude::*;

verus! {

/// Ordered collection of scheduled animations.
///
/// The timeline does not schedule anything yet: it stores nothing, so a
/// scene driven by a fresh timeline renders no frames.
#[derive(Default)]
pub struct Timeline {
    _private: (),
}

impl Timeline {
    /// Construct an empty timeline (the same value as `Timeline::default()`).
    pub fn new() -> Self {
        Timeline { _private: () }
    }
}

} // verus!
