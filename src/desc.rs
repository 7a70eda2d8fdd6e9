use vstd::prelude::*;

use crate::format::{PixelFormat, VertexFormat};
use crate::types::SurfaceError;

verus! {

/// Backend that is used for rendering.
#[derive(Clone, Copy, Debug, PartialEq, Eq, Structural)]
pub enum Backend {
    Metal,
    Vulkan,
    WebGL,
}

/// Marker for types whose implementations stay inside this library.
pub trait Sealed {}

/// Sizes needed to build an acceleration structure.
#[derive(Clone, Copy, Debug, PartialEq, Eq, Hash, Structural)]
pub struct AccelerationStructureSizes {
    pub size: usize,
    pub scratch_size: usize,
    pub update_scratch_size: usize,
}

/// What an acceleration structure build favours.
#[derive(Clone, Copy, Debug, PartialEq, Eq, Hash, Structural)]
pub enum AccelerationStructurePerformance {
    Default,
    FastTrace,
    FastBuild,
}

/// Flags of an acceleration structure build.
#[derive(Clone, Copy, Debug, PartialEq, Eq, Hash, Structural)]
pub struct AccelerationStructureBuildFlags {
    pub bits: u32,
}

/// Flags of a bottom-level acceleration structure.
#[derive(Clone, Copy, Debug, PartialEq, Eq, Hash, Structural)]
pub struct BlasFlags {
    pub bits: u32,
}

/// Description of a bottom-level acceleration structure.
#[derive(Clone, Copy, Debug, PartialEq, Eq, Hash, Structural)]
pub struct BlasDesc {
    pub flags: BlasFlags,
    pub size: usize,
}

/// One instance in a top-level acceleration structure.
pub struct TlasInstanceDesc {}

/// Description of a top-level acceleration structure build.
pub struct TlasBuildDesc {
    pub flags: AccelerationStructureBuildFlags,
    pub instances: Vec<TlasInstanceDesc>,
}

/// Flags of a top-level acceleration structure.
#[derive(Clone, Copy, Debug, PartialEq, Eq, Hash, Structural)]
pub struct TlasFlags {
    pub bits: u32,
}

/// Description of a top-level acceleration structure.
#[derive(Clone, Copy, Debug, PartialEq, Eq, Hash, Structural)]
pub struct TlasDesc {
    pub flags: TlasFlags,
    pub size: usize,
}

/// Shader stages, one bit each.
#[derive(Clone, Copy, Debug, PartialEq, Eq, Hash, Structural)]
pub struct ShaderStages {
    pub bits: u32,
}

/// Kind of a shader argument.
#[derive(Clone, Copy, Debug, PartialEq, Eq, Hash, Structural)]
pub enum ArgumentKind {
    UniformBuffer,
    StorageBuffer,
    SampledImage,
    StorageImage,
    Sampler,
}

/// Layout of one shader argument.
#[derive(Clone, Copy, Debug, PartialEq, Eq, Hash, Structural)]
pub struct ArgumentLayout {
    pub kind: ArgumentKind,
    pub size: usize,
    pub stages: ShaderStages,
}

/// Layout of a group of shader arguments.
#[derive(Clone, Copy, Debug, PartialEq, Eq, Hash)]
pub struct ArgumentGroupLayout<'a> {
    pub arguments: &'a [ArgumentLayout],
}

/// Marker of the argument kinds that fields can be bound as.
pub trait ArgumentsSealed {}

/// Field bound as a uniform.
pub struct Uniform(());

impl ArgumentsSealed for Uniform {}

/// Field bound as a sampled image.
pub struct Sampled(());

impl ArgumentsSealed for Sampled {}

/// Field bound as storage.
pub struct Storage(());

impl ArgumentsSealed for Storage {}

/// Field bound as its type decides.
pub struct Automatic(());

impl ArgumentsSealed for Automatic {}

/// A type that can be a field of an argument group, bound as `T` says.
pub trait ArgumentsField<T: ArgumentsSealed>: ArgumentsSealed {
    const KIND: ArgumentKind;
    const SIZE: usize;
}

/// Buffer usage flags.
#[derive(Clone, Copy, Debug, PartialEq, Eq, Hash, Structural)]
pub struct BufferUsage {
    pub bits: u32,
}

/// Memory a buffer lives in.
#[derive(Clone, Copy, Debug, PartialEq, Eq, Hash, Structural)]
pub enum Memory {
    /// Device-local, not visible to the host.
    Device,
    /// Visible to both device and host.
    Shared,
    /// Written by the host, read by the device.
    Upload,
    /// Written by the device, read by the host.
    Download,
}

/// Description used for buffer creation.
#[derive(Clone, Copy, Debug, PartialEq, Eq, Hash)]
pub struct BufferDesc<'a> {
    pub size: usize,
    pub usage: BufferUsage,
    pub memory: Memory,
    pub name: &'a str,
}

/// Description used for buffer creation with initial contents.
#[derive(Clone, Copy, Debug, PartialEq, Eq, Hash)]
pub struct BufferInitDesc<'a> {
    pub data: &'a [u8],
    pub usage: BufferUsage,
    pub memory: Memory,
    pub name: &'a str,
}

/// A range of a buffer of `size` bytes, clamped to the buffer.
pub trait BufferIndex: Sized {
    fn range(self, size: usize) -> (r: std::ops::Range<usize>)
        ensures
            r.start <= r.end <= size,
    ;
}

impl BufferIndex for std::ops::Range<usize> {
    fn range(self, size: usize) -> (r: std::ops::Range<usize>)
        ensures
            r.end == (if self.end <= size { self.end } else { size }),
            r.start == (if self.start <= r.end { self.start } else { r.end }),
    {
        let end = if self.end <= size { self.end } else { size };
        let start = if self.start <= end { self.start } else { end };
        start..end
    }
}

/// Why the graphics library could not be loaded.
#[derive(Clone, Copy, Debug, PartialEq, Eq, Structural)]
pub enum LoadErrorKind {
    LibraryNotFound,
    OutOfMemory,
}

/// Error of loading the graphics library.
#[derive(Clone, Copy, Debug, PartialEq, Eq)]
pub struct LoadError(pub LoadErrorKind);

/// Why a device could not be created.
#[derive(Clone, Copy, Debug, PartialEq, Eq, Structural)]
pub enum CreateErrorKind {
    OutOfMemory,
    DeviceLost,
    FailedToCreateDevice,
}

/// Error of creating a device.
#[derive(Clone, Copy, Debug, PartialEq, Eq)]
pub struct CreateError(pub CreateErrorKind);

/// Error of creating a device together with a surface.
#[derive(Clone, Copy, Debug, PartialEq, Eq)]
pub enum CreateWithSurfaceError {
    CreateError(CreateError),
    SurfaceError(SurfaceError),
}

/// Queue capability flags.
#[derive(Clone, Copy, Debug, PartialEq, Eq, Hash, Structural)]
pub struct QueueFlags {
    pub bits: u32,
}

/// Optional device features.
#[derive(Clone, Copy, Debug, PartialEq, Eq, Hash, Structural)]
pub struct Features {
    pub bits: u32,
}

/// Capabilities of one queue family.
#[derive(Clone, Debug)]
pub struct FamilyCapabilities {
    pub queue_flags: QueueFlags,
    pub queue_count: usize,
}

/// Capabilities of one device.
#[derive(Clone, Debug)]
pub struct DeviceCapabilities {
    pub features: Features,
    pub families: Vec<FamilyCapabilities>,
}

/// Capabilities of every device.
#[derive(Clone, Debug)]
pub struct Capabilities {
    pub devices: Vec<DeviceCapabilities>,
}

/// Which device to create, with how many queues of each family and which
/// features.
pub struct DeviceDesc<'a> {
    pub idx: usize,
    pub queues: &'a [u32],
    pub features: Features,
}

/// What happens to an attachment's contents when a pass begins.
#[derive(Clone, Copy, Debug, PartialEq)]
pub enum LoadOp<T> {
    Load,
    Clear(T),
    DontCare,
}

/// What happens to an attachment's contents when a pass ends.
#[derive(Clone, Copy, Debug, PartialEq, Eq, Structural)]
pub enum StoreOp {
    Store,
    DontCare,
}

/// One vertex attribute.
#[derive(Clone, Copy, Debug, PartialEq, Eq, Hash, Structural)]
pub struct VertexAttributeDesc {
    pub format: VertexFormat,
    pub buffer_index: u32,
    pub offset: u32,
}

/// How a vertex buffer advances.
#[derive(Clone, Copy, Debug, PartialEq, Eq, Hash, Structural)]
pub enum VertexStepMode {
    Vertex,
    Instance { rate: u32 },
    Constant,
}

/// Layout of one vertex buffer.
#[derive(Clone, Copy, Debug, PartialEq, Eq, Hash, Structural)]
pub struct VertexLayoutDesc {
    pub stride: u32,
    pub step_mode: VertexStepMode,
}

/// Kind of primitive that vertices form.
#[derive(Clone, Copy, Debug, PartialEq, Eq, Hash, Structural)]
pub enum PrimitiveTopology {
    Point,
    Line,
    Triangle,
}

/// Color channels written by a pipeline.
#[derive(Clone, Copy, Debug, PartialEq, Eq, Hash, Structural)]
pub struct WriteMask {
    pub bits: u8,
}

/// One color target of a pipeline.
#[derive(Clone, Copy, Debug, PartialEq, Eq, Hash, Structural)]
pub struct ColorTargetDesc {
    pub format: PixelFormat,
    pub blend: Option<BlendDesc>,
}

/// Blending of a color target.
#[derive(Clone, Copy, Debug, PartialEq, Eq, Hash, Structural)]
pub struct BlendDesc {
    pub mask: WriteMask,
    pub color: Blend,
    pub alpha: Blend,
}

impl Default for BlendDesc {
    /// Every channel written; color and alpha both blend the source over
    /// the destination by the source's alpha.
    fn default() -> (r: BlendDesc)
        ensures
            r.mask.bits == 0xf,
            r.color == (Blend { op: BlendOp::Add, src: BlendFactor::One, dst: BlendFactor::OneMinusSrcAlpha }),
            r.alpha == (Blend { op: BlendOp::Add, src: BlendFactor::One, dst: BlendFactor::OneMinusSrcAlpha }),
    {
        BlendDesc {
            mask: WriteMask { bits: 0xf },
            color: Blend { op: BlendOp::Add, src: BlendFactor::One, dst: BlendFactor::OneMinusSrcAlpha },
            alpha: Blend { op: BlendOp::Add, src: BlendFactor::One, dst: BlendFactor::OneMinusSrcAlpha },
        }
    }
}

/// One blend equation.
#[derive(Clone, Copy, Debug, PartialEq, Eq, Hash, Structural)]
pub struct Blend {
    pub op: BlendOp,
    pub src: BlendFactor,
    pub dst: BlendFactor,
}

/// Factor of a blend equation.
#[derive(Clone, Copy, Debug, PartialEq, Eq, Hash, Structural)]
pub enum BlendFactor {
    Zero,
    One,
    SrcColor,
    OneMinusSrcColor,
    SrcAlpha,
    OneMinusSrcAlpha,
    DstColor,
    OneMinusDstColor,
    DstAlpha,
    OneMinusDstAlpha,
    SrcAlphaSaturated,
}

/// Operation of a blend equation.
#[derive(Clone, Copy, Debug, PartialEq, Eq, Hash, Structural)]
pub enum BlendOp {
    Add,
    Subtract,
    ReverseSubtract,
    Min,
    Max,
}

/// Depth and stencil state of a pipeline.
#[derive(Clone, Copy, Debug, PartialEq, Eq, Hash, Structural)]
pub struct DepthStencilDesc {
    pub format: PixelFormat,
    pub write_enabled: bool,
    pub compare: CompareFunction,
}

/// Comparison of a depth test.
#[derive(Clone, Copy, Debug, PartialEq, Eq, Hash, Structural)]
pub enum CompareFunction {
    Never,
    Less,
    Equal,
    LessEqual,
    Greater,
    NotEqual,
    GreaterEqual,
    Always,
}

/// Winding of front faces.
#[derive(Clone, Copy, Debug, PartialEq, Eq, Hash, Structural)]
pub enum FrontFace {
    Clockwise,
    CounterClockwise,
}

/// Faces that are culled.
#[derive(Clone, Copy, Debug, PartialEq, Eq, Hash, Structural)]
pub enum Culling {
    /// No face is culled.
    Disabled,
    Front,
    Back,
}

/// Why a pipeline could not be created.
#[derive(Clone, Copy, Debug, PartialEq, Eq, Structural)]
pub enum CreatePipelineErrorKind {
    OutOfMemory,
}

/// Error of creating a pipeline.
#[derive(Clone, Copy, Debug, PartialEq, Eq)]
pub struct CreatePipelineError(pub CreatePipelineErrorKind);

/// A shader stage.
#[derive(Clone, Copy, Debug, PartialEq, Eq, Hash, Structural)]
pub enum ShaderStage {
    Vertex,
    Fragment,
    Compute,
}

/// Language of shader source.
#[derive(Clone, Copy, Debug, PartialEq, Eq, Hash, Structural)]
pub enum ShaderLanguage {
    SpirV,
    Wgsl,
    Glsl { stage: ShaderStage },
    Msl,
}

/// Shader source code.
#[derive(Clone, Debug, PartialEq, Hash)]
pub struct ShaderSource<'a> {
    pub code: &'a [u8],
    pub filename: Option<&'a str>,
    pub language: ShaderLanguage,
}

/// Input of a shader library.
#[derive(Clone, Debug, PartialEq, Hash)]
pub enum LibraryInput<'a> {
    Source(ShaderSource<'a>),
}

/// Description of a shader library.
#[derive(Clone, Debug, PartialEq, Hash)]
pub struct LibraryDesc<'a> {
    pub name: &'a str,
    pub input: LibraryInput<'a>,
}

} // verus!
