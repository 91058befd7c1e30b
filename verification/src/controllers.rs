//! The controller of the older, monolithic path: it owns the gateway and
//! shapes one demonstration request per execution.

use vstd::prelude::*;

use crate::gateways::VulkanGateway;
use crate::infra::TriangleRequest;

verus! {

/// Drives the gateway once per execution.
#[derive(Clone, Copy, PartialEq, Eq, Structural, Debug)]
pub struct VulkanController {
    pub _gateway: VulkanGateway,
}

impl VulkanController {
    pub fn new() -> (r: VulkanController)
        ensures
            r == (VulkanController {
                _gateway: (VulkanGateway { vulkan_layer: (crate::infra::VulkanLayer {  }) }),
            }),
    {
        VulkanController { _gateway: VulkanGateway::new() }
    }

    /// The request one execution hands to the native routine.
    pub fn execute(&self, width: usize, height: usize) -> (r: TriangleRequest)
        ensures
            r == (TriangleRequest { width, height }),
    {
        self._gateway.create_hello_triangle(width, height)
    }
}

} // verus!
