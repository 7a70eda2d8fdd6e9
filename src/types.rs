use vstd::prelude::*;

verus! {

/// Error that can happen when device's memory is exhausted.
#[derive(Clone, Copy, Debug, PartialEq, Eq, Hash, Structural)]
pub struct OutOfMemory;

/// Error of an operation that may also lose the device.
#[derive(Clone, Copy, Debug, PartialEq, Eq, Hash, Structural)]
pub enum DeviceError {
    OutOfMemory,
    DeviceLost,
}

/// Error of an operation on a presentable surface.
#[derive(Clone, Copy, Debug, PartialEq, Eq, Hash, Structural)]
pub enum SurfaceError {
    OutOfMemory,
    SurfaceLost,
}

impl DeviceError {
    /// Keeps an out-of-memory error; a lost device is not recoverable here,
    /// so callers must not pass it.
    pub fn abort_on_device_lost(self) -> (r: OutOfMemory)
        requires
            self == DeviceError::OutOfMemory,
    {
        OutOfMemory
    }

    /// Text that names the error.
    pub fn to_string(&self) -> (r: String)
        ensures
            *self == DeviceError::OutOfMemory ==> r@ == "out of memory"@,
            *self == DeviceError::DeviceLost ==> r@ == "device lost"@,
    {
        match self {
            DeviceError::OutOfMemory => {
                proof { reveal_strlit("out of memory"); }
                "out of memory".to_string()
            }
            DeviceError::DeviceLost => {
                proof { reveal_strlit("device lost"); }
                "device lost".to_string()
            }
        }
    }
}

impl From<OutOfMemory> for DeviceError {
    fn from(e: OutOfMemory) -> (r: DeviceError)
        ensures
            r == DeviceError::OutOfMemory,
    {
        DeviceError::OutOfMemory
    }
}

impl vstd::std_specs::convert::FromSpecImpl<OutOfMemory> for DeviceError {
    open spec fn obeys_from_spec() -> bool {
        true
    }

    open spec fn from_spec(v: OutOfMemory) -> DeviceError {
        DeviceError::OutOfMemory
    }
}

impl From<OutOfMemory> for SurfaceError {
    fn from(e: OutOfMemory) -> (r: SurfaceError)
        ensures
            r == SurfaceError::OutOfMemory,
    {
        SurfaceError::OutOfMemory
    }
}

impl vstd::std_specs::convert::FromSpecImpl<OutOfMemory> for SurfaceError {
    open spec fn obeys_from_spec() -> bool {
        true
    }

    open spec fn from_spec(v: OutOfMemory) -> SurfaceError {
        SurfaceError::OutOfMemory
    }
}

/// A failed native call, as the driver reports it.
#[derive(Clone, Copy, Debug, PartialEq, Eq, Hash, Structural)]
pub enum NativeError {
    OutOfHostMemory,
    OutOfDeviceMemory,
    DeviceLost,
    SurfaceLost,
    OutOfDate,
    FullScreenExclusiveModeLost,
    TooManyObjects,
    MemoryMapFailed,
    Unknown,
}

/// A failed request to the memory sub-allocator.
#[derive(Clone, Copy, Debug, PartialEq, Eq, Hash, Structural)]
pub enum AllocationFailure {
    OutOfDeviceMemory,
    OutOfHostMemory,
    NoCompatibleMemoryTypes,
    TooManyObjects,
}

/// What a failure means to the caller.
#[derive(Clone, Copy, Debug, PartialEq, Eq, Hash, Structural)]
pub enum Failure {
    /// Device memory ran out; the caller may retry.
    OutOfMemory,
    /// The device is gone; nothing on it will succeed again.
    DeviceLost,
    /// The surface is gone; the device is unaffected.
    SurfaceLost,
    /// The swapchain no longer matches the surface and is rebuilt.
    OutOfDate,
    /// Host memory ran out, or the driver reported what it never should:
    /// the process cannot safely go on and aborts.
    Abort,
}

/// What a failed native call means to the caller.
pub open spec fn failure_of(e: NativeError) -> Failure {
    match e {
        NativeError::OutOfDeviceMemory => Failure::OutOfMemory,
        NativeError::DeviceLost => Failure::DeviceLost,
        NativeError::SurfaceLost | NativeError::FullScreenExclusiveModeLost => Failure::SurfaceLost,
        NativeError::OutOfDate => Failure::OutOfDate,
        _ => Failure::Abort,
    }
}

/// What a failed allocation means to the caller.
pub open spec fn allocation_failure_of(e: AllocationFailure) -> Failure {
    if e == AllocationFailure::OutOfHostMemory {
        Failure::Abort
    } else {
        Failure::OutOfMemory
    }
}

/// Classifies a failed native call: device memory exhaustion is recoverable,
/// host memory exhaustion aborts, a lost device or surface is fatal to it,
/// and an out-of-date swapchain is handled by rebuilding it.
pub fn classify(e: NativeError) -> (r: Failure)
    ensures
        r == failure_of(e),
        e == NativeError::OutOfDeviceMemory ==> r == Failure::OutOfMemory,
        e == NativeError::DeviceLost ==> r == Failure::DeviceLost,
        e == NativeError::SurfaceLost || e == NativeError::FullScreenExclusiveModeLost ==> r == Failure::SurfaceLost,
        e == NativeError::OutOfDate ==> r == Failure::OutOfDate,
        e == NativeError::OutOfHostMemory || e == NativeError::TooManyObjects || e == NativeError::MemoryMapFailed
            || e == NativeError::Unknown ==> r == Failure::Abort,
{
    match e {
        NativeError::OutOfDeviceMemory => Failure::OutOfMemory,
        NativeError::DeviceLost => Failure::DeviceLost,
        NativeError::SurfaceLost | NativeError::FullScreenExclusiveModeLost => Failure::SurfaceLost,
        NativeError::OutOfDate => Failure::OutOfDate,
        NativeError::OutOfHostMemory | NativeError::TooManyObjects | NativeError::MemoryMapFailed
        | NativeError::Unknown => Failure::Abort,
    }
}

/// Classifies a failed allocation: host exhaustion aborts, every other
/// failure is an ordinary out-of-memory error.
pub fn classify_allocation(e: AllocationFailure) -> (r: Failure)
    ensures
        r == allocation_failure_of(e),
        e == AllocationFailure::OutOfHostMemory ==> r == Failure::Abort,
        e != AllocationFailure::OutOfHostMemory ==> r == Failure::OutOfMemory,
{
    match e {
        AllocationFailure::OutOfHostMemory => Failure::Abort,
        _ => Failure::OutOfMemory,
    }
}

} // verus!
