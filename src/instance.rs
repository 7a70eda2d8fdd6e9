use vstd::prelude::*;

use crate::desc::{Capabilities, DeviceCapabilities, FamilyCapabilities, Features, LoadError, QueueFlags};

verus! {

/// The queue can record graphics work.
pub const GRAPHICS: u32 = 0x1;

/// The queue can record compute work.
pub const COMPUTE: u32 = 0x2;

/// The queue can record transfers.
pub const TRANSFER: u32 = 0x4;

/// The device can present to surfaces; creating a surface needs it.
pub const SURFACE: u32 = 0x1;

/// Whether `features` include presenting to surfaces.
pub fn surface_enabled(features: Features) -> (r: bool)
    ensures
        r == (features.bits & SURFACE != 0),
{
    features.bits & SURFACE != 0
}

/// Entry point of the in-process backend, which offers one device with one
/// queue family.
pub struct Instance {
    capabilities: Capabilities,
}

impl Instance {
    /// The capabilities offered.
    pub closed spec fn caps(&self) -> Capabilities {
        self.capabilities
    }

    /// Loads the backend: one device without optional features, whose one
    /// queue family has 32 queues for graphics, compute and transfers.
    pub fn load() -> (r: Result<Instance, LoadError>)
        ensures
            r matches Ok(i) && i.caps().devices@.len() == 1 && i.caps().devices@[0].features.bits == 0
                && i.caps().devices@[0].families@.len() == 1
                && i.caps().devices@[0].families@[0].queue_flags.bits == GRAPHICS | COMPUTE | TRANSFER
                && i.caps().devices@[0].families@[0].queue_count == 32,
    {
        let family = FamilyCapabilities { queue_flags: QueueFlags { bits: GRAPHICS | COMPUTE | TRANSFER }, queue_count: 32 };
        let mut families: Vec<FamilyCapabilities> = Vec::new();
        families.push(family);
        let device = DeviceCapabilities { features: Features { bits: 0 }, families };
        let mut devices: Vec<DeviceCapabilities> = Vec::new();
        devices.push(device);
        Ok(Instance { capabilities: Capabilities { devices } })
    }

    /// The capabilities offered.
    pub fn capabilities(&self) -> (r: &Capabilities)
        ensures
            *r == self.caps(),
    {
        &self.capabilities
    }
}

} // verus!
