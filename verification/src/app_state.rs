//! The GPU objects behind the draw call, described in plain values, and the
//! verdict on their creation.
//!
//! The host creates the objects on its device, one step after the other, and
//! reports how each step ended. Nothing here touches a device.
use crate::uniforms::{Uniforms, UNIFORMS_SIZE};
use vstd::prelude::*;
use vstd::string::StringExecFns;

verus! {

/// The number of steps in which the objects are created.
pub const STEP_COUNT: usize = 6;

/// The index at which a draw binds the parameter buffer's group.
pub const BIND_GROUP: u32 = 0;

/// The vertices of one draw: two triangles that cover the viewport.
pub const VERTEX_COUNT: u32 = 6;

/// The instances of one draw.
pub const INSTANCE_COUNT: u32 = 1;

/// One step of the creation, in the order in which the steps are taken.
#[derive(Clone, Copy, Debug, PartialEq, Eq, Hash, Structural)]
pub enum InitStep {
    Buffer,
    BindGroupLayout,
    BindGroup,
    ShaderModule,
    PipelineLayout,
    Pipeline,
}

/// What a binding shows to the shader.
#[derive(Clone, Copy, Debug, PartialEq, Eq, Hash, Structural)]
pub enum BindingKind {
    /// A buffer that the shader reads as a uniform block.
    UniformBuffer,
    /// A buffer that the shader reads and writes.
    StorageBuffer,
    /// A buffer that the shader reads as storage.
    ReadOnlyStorageBuffer,
}

/// A stage of the pipeline that runs the shader.
#[derive(Clone, Copy, Debug, PartialEq, Eq, Hash, Structural)]
pub enum ShaderStage {
    Vertex,
    Fragment,
}

/// How the pipeline makes primitives of the vertices of a draw.
#[derive(Clone, Copy, Debug, PartialEq, Eq, Hash, Structural)]
pub enum Topology {
    PointList,
    LineList,
    LineStrip,
    /// Each three vertices in a row are one triangle.
    TriangleList,
    TriangleStrip,
}

/// What a device reports when a step fails.
#[derive(Clone, Copy, Debug, PartialEq, Eq, Hash, Structural)]
pub enum DeviceFault {
    /// The device has no memory left for the object.
    OutOfMemory,
    /// The device refuses what it was given: a shader that does not compile,
    /// a layout that does not fit.
    Validation,
    /// The device failed for a reason of its own.
    Internal,
}

/// Why the objects could not be created: the first step that failed, and how.
#[derive(Clone, Copy, Debug, PartialEq, Eq, Hash, Structural)]
pub struct InitError {
    pub step: InitStep,
    pub fault: DeviceFault,
}

/// How each step of the creation ended: nothing where it succeeded or was not
/// taken, the fault where it failed.
#[derive(Clone, Copy, Debug, PartialEq, Eq, Hash, Structural)]
pub struct InitReport {
    pub buffer: Option<DeviceFault>,
    pub bind_group_layout: Option<DeviceFault>,
    pub bind_group: Option<DeviceFault>,
    pub shader_module: Option<DeviceFault>,
    pub pipeline_layout: Option<DeviceFault>,
    pub pipeline: Option<DeviceFault>,
}

/// The objects behind the draw call: a buffer for the uniform block, the
/// binding that shows that buffer to the shader, and the pipeline.
#[derive(Clone, Copy, Debug, PartialEq, Eq, Hash, Structural)]
pub struct AppState {
    /// The size of the buffer in bytes.
    pub buffer_size: u64,
    /// Whether the buffer can be bound as a uniform block.
    pub buffer_uniform: bool,
    /// Whether the CPU can write into the buffer through the queue.
    pub buffer_copy_dst: bool,
    /// Whether the buffer is mapped into the CPU's memory when it is created.
    pub buffer_mapped_at_creation: bool,
    /// The number of entries of the bind group's layout.
    pub layout_entries: u32,
    /// The index of the buffer's binding in the group.
    pub binding: u32,
    /// What the binding shows to the shader.
    pub binding_kind: BindingKind,
    /// Whether a draw may shift the binding by a dynamic offset.
    pub dynamic_offset: bool,
    /// Whether the vertex stage sees the buffer.
    pub vertex_visible: bool,
    /// Whether the fragment stage sees the buffer.
    pub fragment_visible: bool,
    /// The number of entries of the bind group.
    pub group_entries: u32,
    /// The byte of the buffer at which the binding starts.
    pub bound_offset: u64,
    /// The number of bytes that the binding covers, or nothing where it
    /// reaches to the end of the buffer.
    pub bound_size: Option<u64>,
    /// The number of bind groups in the pipeline's layout.
    pub bind_groups: u32,
    /// The number of shader modules. With one module both stages run it.
    pub shader_modules: u32,
    /// The number of vertex buffers that the pipeline reads.
    pub vertex_buffers: u32,
    /// How the pipeline makes primitives of the vertices.
    pub topology: Topology,
    /// The number of colour targets that the pipeline writes.
    pub color_targets: u32,
    /// Whether the pipeline tests depth or stencil.
    pub depth_stencil: bool,
}

impl ShaderStage {
    /// The name of the function of the shader that the stage runs.
    pub open spec fn entry_label(self) -> Seq<char> {
        match self {
            ShaderStage::Vertex => "vs_main"@,
            ShaderStage::Fragment => "fs_main"@,
        }
    }

    /// The name of the function of the shader that the stage runs.
    pub fn entry_point(&self) -> (r: &'static str)
        ensures
            r@ == self.entry_label(),
    {
        match self {
            ShaderStage::Vertex => "vs_main",
            ShaderStage::Fragment => "fs_main",
        }
    }
}

impl InitStep {
    /// The place of the step in the order of creation, from 0.
    pub open spec fn index(self) -> int {
        match self {
            InitStep::Buffer => 0,
            InitStep::BindGroupLayout => 1,
            InitStep::BindGroup => 2,
            InitStep::ShaderModule => 3,
            InitStep::PipelineLayout => 4,
            InitStep::Pipeline => 5,
        }
    }

    /// The name of the object that the step creates.
    pub open spec fn label(self) -> Seq<char> {
        match self {
            InitStep::Buffer => "parameter buffer"@,
            InitStep::BindGroupLayout => "bind group layout"@,
            InitStep::BindGroup => "bind group"@,
            InitStep::ShaderModule => "shader module"@,
            InitStep::PipelineLayout => "pipeline layout"@,
            InitStep::Pipeline => "render pipeline"@,
        }
    }

    /// The name of the object that the step creates.
    pub fn name(&self) -> (r: &'static str)
        ensures
            r@ == self.label(),
    {
        match self {
            InitStep::Buffer => "parameter buffer",
            InitStep::BindGroupLayout => "bind group layout",
            InitStep::BindGroup => "bind group",
            InitStep::ShaderModule => "shader module",
            InitStep::PipelineLayout => "pipeline layout",
            InitStep::Pipeline => "render pipeline",
        }
    }
}

impl DeviceFault {
    /// The fault in words.
    pub open spec fn label(self) -> Seq<char> {
        match self {
            DeviceFault::OutOfMemory => "out of memory"@,
            DeviceFault::Validation => "validation error"@,
            DeviceFault::Internal => "internal error"@,
        }
    }

    /// The fault in words.
    pub fn name(&self) -> (r: &'static str)
        ensures
            r@ == self.label(),
    {
        match self {
            DeviceFault::OutOfMemory => "out of memory",
            DeviceFault::Validation => "validation error",
            DeviceFault::Internal => "internal error",
        }
    }
}

impl InitError {
    /// The message of the error: which object could not be created, and why.
    pub open spec fn message(self) -> Seq<char> {
        "cannot create the "@ + self.step.label() + ": "@ + self.fault.label()
    }

    /// The message to abort the launch with.
    pub fn to_string(&self) -> (r: String)
        ensures
            r@ == self.message(),
    {
        let mut out = String::new();
        out.append("cannot create the ");
        out.append(self.step.name());
        out.append(": ");
        out.append(self.fault.name());
        assert(out@ =~= self.message());
        out
    }
}

impl InitReport {
    /// How the steps ended, in the order of creation.
    pub open spec fn outcomes(self) -> Seq<Option<DeviceFault>> {
        seq![
            self.buffer,
            self.bind_group_layout,
            self.bind_group,
            self.shader_module,
            self.pipeline_layout,
            self.pipeline,
        ]
    }

    /// Whether no step failed.
    pub open spec fn clean(self) -> bool {
        forall|i: int| 0 <= i < STEP_COUNT ==> self.outcomes()[i] is None
    }

    /// The report of a creation in which no step has failed.
    pub fn new() -> (r: Self)
        ensures
            r.clean(),
            r.outcomes() == Seq::<Option<DeviceFault>>::new(STEP_COUNT as nat, |i: int| None),
    {
        let r = InitReport {
            buffer: None,
            bind_group_layout: None,
            bind_group: None,
            shader_module: None,
            pipeline_layout: None,
            pipeline: None,
        };
        assert(r.outcomes() =~= Seq::<Option<DeviceFault>>::new(STEP_COUNT as nat, |i: int| None));
        r
    }

    /// Notes how one step ended. The other steps stay as they are.
    pub fn record(&mut self, step: InitStep, outcome: Option<DeviceFault>)
        ensures
            final(self).outcomes() == old(self).outcomes().update(step.index(), outcome),
    {
        match step {
            InitStep::Buffer => {
                self.buffer = outcome;
            },
            InitStep::BindGroupLayout => {
                self.bind_group_layout = outcome;
            },
            InitStep::BindGroup => {
                self.bind_group = outcome;
            },
            InitStep::ShaderModule => {
                self.shader_module = outcome;
            },
            InitStep::PipelineLayout => {
                self.pipeline_layout = outcome;
            },
            InitStep::Pipeline => {
                self.pipeline = outcome;
            },
        }
        assert(self.outcomes() =~= old(self).outcomes().update(step.index(), outcome));
    }
}

impl AppState {
    /// The objects that the viewer draws with.
    ///
    /// The buffer holds exactly one uniform block, can be bound as a uniform
    /// block and written through the queue, and is not mapped when it is
    /// created. The bind group and its layout have one entry each: binding 0,
    /// a uniform buffer without dynamic offset, shown to the fragment stage
    /// alone, over the whole buffer. The pipeline's layout holds that one
    /// group. Both stages run the one shader module. The pipeline reads no
    /// vertex buffer, takes its vertices as a list of triangles, tests neither
    /// depth nor stencil and writes one colour target.
    pub open spec fn plan() -> AppState {
        AppState {
            buffer_size: UNIFORMS_SIZE as u64,
            buffer_uniform: true,
            buffer_copy_dst: true,
            buffer_mapped_at_creation: false,
            layout_entries: 1,
            binding: 0,
            binding_kind: BindingKind::UniformBuffer,
            dynamic_offset: false,
            vertex_visible: false,
            fragment_visible: true,
            group_entries: 1,
            bound_offset: 0,
            bound_size: None,
            bind_groups: 1,
            shader_modules: 1,
            vertex_buffers: 0,
            topology: Topology::TriangleList,
            color_targets: 1,
            depth_stencil: false,
        }
    }

    /// What the host is to create, before any step is taken.
    pub fn planned() -> (r: Self)
        ensures
            r == Self::plan(),
    {
        AppState {
            buffer_size: UNIFORMS_SIZE as u64,
            buffer_uniform: true,
            buffer_copy_dst: true,
            buffer_mapped_at_creation: false,
            layout_entries: 1,
            binding: 0,
            binding_kind: BindingKind::UniformBuffer,
            dynamic_offset: false,
            vertex_visible: false,
            fragment_visible: true,
            group_entries: 1,
            bound_offset: 0,
            bound_size: None,
            bind_groups: 1,
            shader_modules: 1,
            vertex_buffers: 0,
            topology: Topology::TriangleList,
            color_targets: 1,
            depth_stencil: false,
        }
    }

    /// The verdict on a creation. With a clean report the objects stand as
    /// planned. Otherwise the launch fails with the first step that failed and
    /// its fault, whatever came after it.
    pub fn new(report: &InitReport) -> (r: Result<Self, InitError>)
        ensures
            r is Ok <==> report.clean(),
            r matches Ok(state) ==> state == Self::plan(),
            r matches Err(e) ==> report.outcomes()[e.step.index()] == Some(e.fault) && forall|
                i: int,
            |
                0 <= i < e.step.index() ==> report.outcomes()[i] is None,
    {
        if let Some(fault) = report.buffer {
            assert(report.outcomes()[0] is Some);
            return Err(InitError { step: InitStep::Buffer, fault });
        }
        if let Some(fault) = report.bind_group_layout {
            assert(report.outcomes()[1] is Some);
            return Err(InitError { step: InitStep::BindGroupLayout, fault });
        }
        if let Some(fault) = report.bind_group {
            assert(report.outcomes()[2] is Some);
            return Err(InitError { step: InitStep::BindGroup, fault });
        }
        if let Some(fault) = report.shader_module {
            assert(report.outcomes()[3] is Some);
            return Err(InitError { step: InitStep::ShaderModule, fault });
        }
        if let Some(fault) = report.pipeline_layout {
            assert(report.outcomes()[4] is Some);
            return Err(InitError { step: InitStep::PipelineLayout, fault });
        }
        if let Some(fault) = report.pipeline {
            assert(report.outcomes()[5] is Some);
            return Err(InitError { step: InitStep::Pipeline, fault });
        }
        Ok(Self::planned())
    }
}

/// The planned buffer holds exactly one uniform block, whatever the block
/// holds: no byte of it is left over and none is missing.
pub proof fn lemma_buffer_holds_one_block(block: Uniforms)
    ensures
        block.bytes().len() == AppState::plan().buffer_size,
{
}

/// A draw finds what it needs in the planned objects: the group that it
/// binds is in the pipeline's layout, and its vertices are whole triangles.
pub proof fn lemma_draw_fits_plan()
    ensures
        BIND_GROUP < AppState::plan().bind_groups,
        AppState::plan().topology == Topology::TriangleList,
        VERTEX_COUNT % 3 == 0,
{
}

} // verus!
