//! Resource lifecycle core of a low-level graphics device layer: descriptor
//! types, the deduplicating cache of immutable device objects, command pool
//! bookkeeping, the epoch pipeline for deferred destruction, and the
//! retirement rules of presentable surfaces.
use vstd::prelude::*;

pub mod bindings;
pub mod buffer;
pub mod cache;
pub mod desc;
pub mod device;
pub mod extent;
pub mod format;
pub mod image;
pub mod instance;
pub mod layout;
pub mod pool;
pub mod queue;
pub mod registry;
pub mod sampler;
pub mod surface;
pub mod types;
pub mod view_cache;
pub mod vk_format;

pub use bindings::{Bindings, GroupBindings};
pub use buffer::BufferSlice;
pub use cache::{CacheKey, DedupCache, Slot};
pub use desc::{
    AccelerationStructurePerformance, AccelerationStructureSizes, ArgumentGroupLayout, ArgumentKind,
    ArgumentLayout, ArgumentsField, ArgumentsSealed, Automatic, Backend, Blend, BlendDesc,
    BlendFactor, BlendOp, BlasDesc, BufferDesc, BufferIndex, BufferInitDesc, BufferUsage,
    Capabilities, ColorTargetDesc, CompareFunction, CreateError, CreatePipelineError,
    CreateWithSurfaceError, Culling, DepthStencilDesc, DeviceCapabilities, DeviceDesc,
    FamilyCapabilities, Features, FrontFace, LibraryDesc, LibraryInput, LoadError, LoadOp, Memory,
    PrimitiveTopology, QueueFlags, Sampled, Sealed, ShaderLanguage, ShaderSource, ShaderStage,
    ShaderStages, Storage, StoreOp, TlasBuildDesc, TlasDesc, TlasInstanceDesc, Uniform,
    VertexAttributeDesc, VertexLayoutDesc, VertexStepMode, WriteMask,
};
pub use device::{
    after_allocation, after_image_bind, buffer_size, default_view, memory_request, memory_usage,
    AllocRequest, CreateStep, Device,
};
pub use extent::{Extent, Extent1, Extent2, Extent3, Offset, Offset1, Offset2, Offset3, One, Zero};
pub use format::{PixelFormat, VertexFormat};
pub use instance::{surface_enabled, Instance};
pub use layout::{PipelineLayoutDesc, SetLayoutDesc};
pub use registry::{HandleKind, PoolKind, Registry};
pub use view_cache::{ViewCache, ViewLookup};
pub use image::{ComponentSwizzle, ImageDesc, ImageExtent, ImageUsage, Swizzle, ViewDesc};
pub use pool::{CommandPools, Pool, MAX_POOLS};
pub use queue::{
    CommandBuffer, EpochStep, PresentRequest, Queue, SubmitOutcome, Submission, MAX_EPOCHS,
};
pub use sampler::{AddressMode, Filter, MipMapMode, SamplerDesc};
pub use surface::{
    pick_format, pick_mode, AcquireOutcome, AcquireStep, Chain, Frame, InitStep, PresentLayout, PresentMode,
    SuboptimalRetire, Surface, MAX_RETIRED, SUBOPTIMAL_RETIRE_COOLDOWN,
};
pub use types::{
    classify, classify_allocation, AllocationFailure, DeviceError, Failure, NativeError, OutOfMemory,
    SurfaceError,
};

verus! {

} // verus!
