//! The kernel's bind-group layout and compute pipeline, as the plain
//! descriptions that are handed to the render device and the pipeline cache.

use vstd::prelude::*;

verus! {

/// Asset path of the shader that holds the kernel.
pub const SHADER_PATH: &'static str = "kernel.wgsl";

/// Name of the kernel's entry point in the shader.
pub const ENTRY_POINT: &'static str = "main";

/// Label of the kernel's bind-group layout.
pub const LAYOUT_LABEL: &'static str = "Kernel Pipeline Bind Group Layout";

/// Label of the kernel's compute pipeline.
pub const PIPELINE_LABEL: &'static str = "kernel pipeline";

/// Binding index of the integer buffer.
pub const NUMBERS_BINDING: u32 = 0;

/// The shader stages that can see a binding.
#[derive(Clone, Copy, Debug, PartialEq, Eq)]
pub struct ShaderStages {
    pub vertex: bool,
    pub fragment: bool,
    pub compute: bool,
}

/// How a buffer is bound.
#[derive(Clone, Copy, Debug, PartialEq, Eq)]
pub enum BufferBindingType {
    Uniform,
    Storage { read_only: bool },
}

/// One buffer binding of a bind-group layout.
#[derive(Clone, Copy, Debug, PartialEq, Eq)]
pub struct LayoutEntry {
    pub binding: u32,
    pub visibility: ShaderStages,
    pub ty: BufferBindingType,
    pub has_dynamic_offset: bool,
    pub min_binding_size: Option<u64>,
    pub count: Option<u32>,
}

/// A bind-group layout, described by its label and entries.
#[derive(Clone, Debug, PartialEq, Eq)]
pub struct BindGroupLayout {
    pub label: &'static str,
    pub entries: Vec<LayoutEntry>,
}

/// Mathematical value of a [`BindGroupLayout`].
pub struct BindGroupLayoutView {
    pub label: Seq<char>,
    pub entries: Seq<LayoutEntry>,
}

impl View for BindGroupLayout {
    type V = BindGroupLayoutView;

    open spec fn view(&self) -> BindGroupLayoutView {
        BindGroupLayoutView { label: self.label@, entries: self.entries@ }
    }
}

/// The only binding of the kernel: the integer buffer at index 0, a
/// read-write storage buffer that the compute stage alone can see.
pub open spec fn kernel_entry() -> LayoutEntry {
    LayoutEntry {
        binding: NUMBERS_BINDING,
        visibility: ShaderStages { vertex: false, fragment: false, compute: true },
        ty: BufferBindingType::Storage { read_only: false },
        has_dynamic_offset: false,
        min_binding_size: None,
        count: None,
    }
}

/// The kernel's bind-group layout.
pub open spec fn kernel_layout() -> BindGroupLayoutView {
    BindGroupLayoutView { label: LAYOUT_LABEL@, entries: seq![kernel_entry()] }
}

impl BindGroupLayout {
    /// A copy of this layout.
    pub fn duplicate(&self) -> (copy: BindGroupLayout)
        ensures
            copy@ == self@,
    {
        let mut entries: Vec<LayoutEntry> = Vec::new();
        let mut i: usize = 0;
        while i < self.entries.len()
            invariant
                i <= self.entries@.len(),
                entries@ == self.entries@.subrange(0, i as int),
            decreases self.entries@.len() - i,
        {
            entries.push(self.entries[i]);
            i = i + 1;
        }
        assert(entries@ =~= self.entries@);
        BindGroupLayout { label: self.label, entries }
    }
}

/// A range of push constants that a pipeline declares.
#[derive(Clone, Copy, Debug, PartialEq, Eq)]
pub struct PushConstantRange {
    pub stages: ShaderStages,
    pub start: u32,
    pub end: u32,
}

/// What is queued in the pipeline cache to have a compute pipeline built.
#[derive(Clone, Debug, PartialEq, Eq)]
pub struct ComputePipelineDescriptor {
    pub label: &'static str,
    pub layout: Vec<BindGroupLayout>,
    pub push_constant_ranges: Vec<PushConstantRange>,
    pub shader: &'static str,
    pub shader_defs: Vec<&'static str>,
    pub entry_point: &'static str,
}

/// Mathematical value of a [`ComputePipelineDescriptor`].
pub struct ComputePipelineDescriptorView {
    pub label: Seq<char>,
    pub layout: Seq<BindGroupLayoutView>,
    pub push_constant_ranges: Seq<PushConstantRange>,
    pub shader: Seq<char>,
    pub shader_defs: Seq<Seq<char>>,
    pub entry_point: Seq<char>,
}

impl View for ComputePipelineDescriptor {
    type V = ComputePipelineDescriptorView;

    open spec fn view(&self) -> ComputePipelineDescriptorView {
        ComputePipelineDescriptorView {
            label: self.label@,
            layout: self.layout@.map_values(|l: BindGroupLayout| l@),
            push_constant_ranges: self.push_constant_ranges@,
            shader: self.shader@,
            shader_defs: self.shader_defs@.map_values(|d: &'static str| d@),
            entry_point: self.entry_point@,
        }
    }
}

/// The kernel's compute pipeline: the shader's entry point over the kernel's
/// layout, with no push constants and no shader definitions.
pub open spec fn kernel_descriptor() -> ComputePipelineDescriptorView {
    ComputePipelineDescriptorView {
        label: PIPELINE_LABEL@,
        layout: seq![kernel_layout()],
        push_constant_ranges: Seq::empty(),
        shader: SHADER_PATH@,
        shader_defs: Seq::empty(),
        entry_point: ENTRY_POINT@,
    }
}

/// Key of a pipeline in the host's pipeline cache.
#[derive(Clone, Copy, Debug, PartialEq, Eq, Structural)]
pub struct PipelineId(pub usize);

/// The pipeline resource of the render world: the key of the queued compute
/// pipeline and the layout of its bind group. It is made once and never
/// changed.
#[derive(Clone, Debug, PartialEq, Eq)]
pub struct KernelPipeline {
    pub pipeline: PipelineId,
    pub bind_group_layout: BindGroupLayout,
}

/// Mathematical value of a [`KernelPipeline`].
pub struct KernelPipelineView {
    pub pipeline: PipelineId,
    pub bind_group_layout: BindGroupLayoutView,
}

impl View for KernelPipeline {
    type V = KernelPipelineView;

    open spec fn view(&self) -> KernelPipelineView {
        KernelPipelineView { pipeline: self.pipeline, bind_group_layout: self.bind_group_layout@ }
    }
}

impl KernelPipeline {
    /// The layout to create on the render device.
    pub fn layout() -> (layout: BindGroupLayout)
        ensures
            layout@ == kernel_layout(),
    {
        let entry = LayoutEntry {
            binding: NUMBERS_BINDING,
            visibility: ShaderStages { vertex: false, fragment: false, compute: true },
            ty: BufferBindingType::Storage { read_only: false },
            has_dynamic_offset: false,
            min_binding_size: None,
            count: None,
        };
        let mut entries: Vec<LayoutEntry> = Vec::new();
        entries.push(entry);
        assert(entries@ =~= seq![kernel_entry()]);
        BindGroupLayout { label: LAYOUT_LABEL, entries }
    }

    /// The descriptor to queue in the pipeline cache.
    pub fn descriptor() -> (descriptor: ComputePipelineDescriptor)
        ensures
            descriptor@ == kernel_descriptor(),
    {
        let mut layout: Vec<BindGroupLayout> = Vec::new();
        layout.push(Self::layout());
        let descriptor = ComputePipelineDescriptor {
            label: PIPELINE_LABEL,
            layout,
            push_constant_ranges: Vec::new(),
            shader: SHADER_PATH,
            shader_defs: Vec::new(),
            entry_point: ENTRY_POINT,
        };
        assert(descriptor@.layout =~= seq![kernel_layout()]);
        assert(descriptor@.shader_defs =~= Seq::empty());
        descriptor
    }

    /// The pipeline resource, once the host's cache has queued the kernel's
    /// descriptor under the key `pipeline`.
    pub fn from_world(pipeline: PipelineId) -> (resource: KernelPipeline)
        ensures
            resource@ == (KernelPipelineView { pipeline, bind_group_layout: kernel_layout() }),
    {
        KernelPipeline { pipeline, bind_group_layout: Self::layout() }
    }
}

} // verus!
