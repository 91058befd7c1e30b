//! The lowest layer of the older, monolithic path: it asks an external
//! native routine to run the whole demonstration at a given size.  The
//! layer validates and shapes the request; the shell makes the call.

use vstd::prelude::*;

verus! {

/// The request the native routine takes: the window size to run at.
#[derive(Clone, Copy, PartialEq, Eq, Structural, Debug)]
pub struct TriangleRequest {
    pub width: usize,
    pub height: usize,
}

/// The binding to the native demonstration routine.
#[derive(Clone, Copy, PartialEq, Eq, Structural, Debug)]
pub struct VulkanLayer {}

impl VulkanLayer {
    pub fn new() -> (r: VulkanLayer)
        ensures
            r == (VulkanLayer {  }),
    {
        VulkanLayer {  }
    }

    /// Shapes the request the shell hands to the native routine.
    pub fn create_hello_triangle(&self, width: usize, height: usize) -> (r: TriangleRequest)
        ensures
            r == (TriangleRequest { width, height }),
    {
        TriangleRequest { width, height }
    }
}

} // verus!
