//! What a pipeline is built from: a render pipeline that draws one
//! triangle, and a compute pipeline over one storage buffer.

use vstd::prelude::*;
use crate::device::DeviceContext;
use crate::error::GpuError;
use crate::shader::{
    compiled_views, entry_views, exposes, find_sole_entry, has_entry, sole_entry, EntryPoint,
    EntryPointView, ShaderStage, WorkgroupSize,
};
use crate::surface::TextureFormat;

verus! {

/// How vertices are assembled into primitives.
#[derive(Clone, Copy, Debug, PartialEq, Eq, Structural)]
pub enum PrimitiveTopology {
    PointList,
    LineList,
    LineStrip,
    TriangleList,
    TriangleStrip,
}

/// How a fragment's colour is combined with what the target holds.
#[derive(Clone, Copy, Debug, PartialEq, Eq, Structural)]
pub enum BlendMode {
    /// The fragment's colour replaces the target's.
    Replace,
    AlphaBlending,
    PremultipliedAlphaBlending,
}

/// The one colour attachment a render pipeline writes to.
#[derive(Clone, Copy, Debug, PartialEq, Eq, Structural)]
pub struct ColorTarget {
    pub format: TextureFormat,
    pub blend: BlendMode,
    /// Whether all four colour channels are written.
    pub write_all_channels: bool,
}

/// A render pipeline, as it is handed to the device.
#[derive(Clone, Debug)]
pub struct RenderPipelineDescriptor {
    pub vertex_entry: String,
    pub fragment_entry: String,
    pub topology: PrimitiveTopology,
    /// Number of vertex buffers the vertex stage reads.
    pub vertex_buffers: u32,
    pub target: ColorTarget,
    /// Whether a depth or stencil attachment is used.
    pub depth_stencil: bool,
    pub sample_count: u32,
}

/// What a binding holds.
#[derive(Clone, Copy, Debug, PartialEq, Eq, Structural)]
pub enum BindingKind {
    UniformBuffer,
    StorageBuffer { read_only: bool },
}

/// One slot of a binding layout.
#[derive(Clone, Copy, Debug, PartialEq, Eq, Structural)]
pub struct BindingLayoutEntry {
    pub binding: u32,
    pub visibility: ShaderStage,
    pub kind: BindingKind,
    pub has_dynamic_offset: bool,
    /// Smallest buffer the slot accepts, where it is constrained.
    pub min_binding_size: Option<u64>,
}

/// A compute pipeline, as it is handed to the device.
#[derive(Clone, Debug)]
pub struct ComputePipelineDescriptor {
    pub entry: String,
    /// The local size that the entry point declares.
    pub workgroup_size: WorkgroupSize,
    /// The layout of bind group 0.
    pub layout: Vec<BindingLayoutEntry>,
}

/// A pipeline of either kind. It is built once and not changed afterwards.
#[derive(Clone, Debug)]
pub enum PipelineDescriptor {
    Render(RenderPipelineDescriptor),
    Compute(ComputePipelineDescriptor),
}

/// Name of the vertex entry point of the triangle shader.
pub open spec fn vertex_entry_name() -> Seq<char> {
    "vs"@
}

/// Name of the fragment entry point of the triangle shader.
pub open spec fn fragment_entry_name() -> Seq<char> {
    "fs"@
}

/// The colour target of the triangle pipeline: the surface's format,
/// replaced on write, all channels.
pub open spec fn triangle_target(format: TextureFormat) -> ColorTarget {
    ColorTarget { format, blend: BlendMode::Replace, write_all_channels: true }
}

/// The slot of the storage buffer: binding 0, read and written by the
/// compute stage, no dynamic offset, any size.
pub open spec fn storage_slot() -> BindingLayoutEntry {
    BindingLayoutEntry {
        binding: 0,
        visibility: ShaderStage::Compute,
        kind: BindingKind::StorageBuffer { read_only: false },
        has_dynamic_offset: false,
        min_binding_size: None,
    }
}

impl RenderPipelineDescriptor {
    /// Whether this is the triangle pipeline for a surface format: entry
    /// points `vs` and `fs`, a triangle list synthesized from the vertex
    /// index without vertex buffers, one colour target, no depth or
    /// stencil, one sample.
    pub open spec fn draws_triangle_to(&self, format: TextureFormat) -> bool {
        &&& self.vertex_entry@ == vertex_entry_name()
        &&& self.fragment_entry@ == fragment_entry_name()
        &&& self.topology == PrimitiveTopology::TriangleList
        &&& self.vertex_buffers == 0
        &&& self.target == triangle_target(format)
        &&& !self.depth_stencil
        &&& self.sample_count == 1
    }
}

impl ComputePipelineDescriptor {
    /// Whether this is the kernel pipeline for the given entry point: it
    /// has the entry point's name and local size, and its layout is the
    /// single storage slot.
    pub open spec fn runs_kernel(&self, entry: EntryPointView) -> bool {
        &&& self.entry@ == entry.name
        &&& self.workgroup_size == entry.workgroup_size
        &&& self.layout@ == seq![storage_slot()]
    }
}

/// Whether a shader can feed the triangle pipeline: it compiled and
/// exposes a vertex entry point `vs` and a fragment entry point `fs`.
pub open spec fn render_ready(compiled: Option<Seq<EntryPointView>>) -> bool {
    match compiled {
        Some(entries) => exposes(entries, vertex_entry_name(), ShaderStage::Vertex) && exposes(
            entries,
            fragment_entry_name(),
            ShaderStage::Fragment,
        ),
        None => false,
    }
}

/// The kernel of a shader: the shader compiled and exposes exactly one
/// compute entry point.
pub open spec fn kernel_of(compiled: Option<Seq<EntryPointView>>) -> Option<EntryPointView> {
    match compiled {
        Some(entries) => match sole_entry(entries, ShaderStage::Compute) {
            Some(position) => Some(entries[position]),
            None => None,
        },
        None => None,
    }
}

/// The binding layout of the kernel: always the one storage slot.
pub fn storage_layout() -> (layout: Vec<BindingLayoutEntry>)
    ensures
        layout@ == seq![storage_slot()],
{
    let mut layout: Vec<BindingLayoutEntry> = Vec::new();
    layout.push(
        BindingLayoutEntry {
            binding: 0,
            visibility: ShaderStage::Compute,
            kind: BindingKind::StorageBuffer { read_only: false },
            has_dynamic_offset: false,
            min_binding_size: None,
        },
    );
    layout
}

impl BindingLayoutEntry {
    /// Whether the slot takes a buffer of `size` bytes: any size, unless the
    /// slot names a smallest one.
    pub open spec fn accepts_spec(&self, size: u64) -> bool {
        match self.min_binding_size {
            Some(least) => size >= least,
            None => true,
        }
    }

    /// Whether the slot takes a buffer of `size` bytes.
    pub fn accepts(&self, size: u64) -> (accepted: bool)
        ensures
            accepted == self.accepts_spec(size),
    {
        match self.min_binding_size {
            Some(least) => size >= least,
            None => true,
        }
    }
}

/// Builds the render pipeline for a surface format from what compiling
/// the triangle shader gave: its entry points, or nothing where the shader
/// did not compile or did not validate.
///
/// Fails with `ShaderCompilationError` where the shader was rejected or
/// lacks one of the two entry points, and in no other case.
pub fn build_render_pipeline(
    context: &DeviceContext,
    format: TextureFormat,
    compiled: &Option<Vec<EntryPoint>>,
) -> (built: Result<PipelineDescriptor, GpuError>)
    ensures
        built is Ok <==> render_ready(compiled_views(*compiled)),
        built matches Ok(p) ==> p matches PipelineDescriptor::Render(d) && d.draws_triangle_to(
            format,
        ),
        built matches Err(e) ==> e == GpuError::ShaderCompilationError,
{
    match compiled {
        Some(entries) => {
            if has_entry(entries, "vs", ShaderStage::Vertex) && has_entry(
                entries,
                "fs",
                ShaderStage::Fragment,
            ) {
                Ok(
                    PipelineDescriptor::Render(
                        RenderPipelineDescriptor {
                            vertex_entry: "vs".to_owned(),
                            fragment_entry: "fs".to_owned(),
                            topology: PrimitiveTopology::TriangleList,
                            vertex_buffers: 0,
                            target: ColorTarget {
                                format,
                                blend: BlendMode::Replace,
                                write_all_channels: true,
                            },
                            depth_stencil: false,
                            sample_count: 1,
                        },
                    ),
                )
            } else {
                Err(GpuError::ShaderCompilationError)
            }
        },
        None => Err(GpuError::ShaderCompilationError),
    }
}

/// Builds the compute pipeline and its binding layout from what compiling
/// the kernel gave: its entry points, or nothing where the shader did not
/// compile or did not validate.
///
/// Fails with `ShaderCompilationError` where the shader was rejected or
/// does not expose exactly one compute entry point, and in no other case.
/// The pipeline takes the name and the local size of that entry point.
pub fn build_compute_pipeline(context: &DeviceContext, compiled: &Option<Vec<EntryPoint>>) -> (built:
    Result<PipelineDescriptor, GpuError>)
    ensures
        built is Ok <==> kernel_of(compiled_views(*compiled)) is Some,
        built matches Ok(p) ==> p matches PipelineDescriptor::Compute(d) && d.runs_kernel(
            kernel_of(compiled_views(*compiled))->Some_0,
        ),
        built matches Err(e) ==> e == GpuError::ShaderCompilationError,
{
    match compiled {
        Some(entries) => {
            match find_sole_entry(entries, ShaderStage::Compute) {
                Some(position) => {
                    assert(entry_views(entries@)[position as int] == entries@[position as int]@);
                    Ok(
                        PipelineDescriptor::Compute(
                            ComputePipelineDescriptor {
                                entry: entries[position].name.clone(),
                                workgroup_size: entries[position].workgroup_size,
                                layout: storage_layout(),
                            },
                        ),
                    )
                },
                None => Err(GpuError::ShaderCompilationError),
            }
        },
        None => Err(GpuError::ShaderCompilationError),
    }
}

} // verus!
