//! Container for the experimental declarative scene description.
//!
//! The scene subsystem is not wired into the running render loop; a canvas is
//! created empty and nothing adds to it yet.

use vstd::prelude::*;

verus! {

/// An empty scene: a placeholder for the declarative shape description that
/// does not participate in the render loop.
pub struct Canvas {}

impl Canvas {
    /// Create the empty scene.
    pub fn new() -> (c: Canvas)
        ensures
            c == (Canvas {  }),
    {
        Canvas {}
    }
}

} // verus!
