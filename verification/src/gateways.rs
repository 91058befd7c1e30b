//! The gateway of the older, monolithic path: it forwards the request to
//! the native layer unchanged.

use vstd::prelude::*;

use crate::infra::{TriangleRequest, VulkanLayer};

verus! {

/// Forwards demonstration requests to the native layer.
#[derive(Clone, Copy, PartialEq, Eq, Structural, Debug)]
pub struct VulkanGateway {
    pub vulkan_layer: VulkanLayer,
}

impl VulkanGateway {
    pub fn new() -> (r: VulkanGateway)
        ensures
            r == (VulkanGateway { vulkan_layer: VulkanLayer {  } }),
    {
        VulkanGateway { vulkan_layer: VulkanLayer::new() }
    }

    /// The request handed on to the layer, unchanged.
    pub fn create_hello_triangle(&self, width: usize, height: usize) -> (r: TriangleRequest)
        ensures
            r == (TriangleRequest { width, height }),
    {
        self.vulkan_layer.create_hello_triangle(width, height)
    }
}

} // verus!
