//! The dispatch node: what it records when the render graph runs it.

use vstd::prelude::*;
use crate::bind_group::KernelBindGroup;
use crate::pipeline::{KernelPipeline, PipelineId, NUMBERS_BINDING};

verus! {

/// Label of the compute pass that the node opens.
pub const PASS_LABEL: &'static str = "Kernel Compute Pass";

/// What the node reads of the host's pipeline cache: the keys of the compute
/// pipelines that are compiled and ready to be bound.
#[derive(Clone, Debug, PartialEq, Eq)]
pub struct PipelineCache {
    pub compiled: Vec<PipelineId>,
}

impl PipelineCache {
    /// Whether the cache resolves `id` to a compiled pipeline.
    pub open spec fn resolves(&self, id: PipelineId) -> bool {
        self.compiled@.contains(id)
    }

    /// Looks `id` up: `true` when its pipeline is compiled.
    pub fn get_compute_pipeline(&self, id: PipelineId) -> (found: bool)
        ensures
            found == self.resolves(id),
    {
        let mut i: usize = 0;
        while i < self.compiled.len()
            invariant
                i <= self.compiled@.len(),
                forall|j: int| 0 <= j < i ==> self.compiled@[j] != id,
            decreases self.compiled@.len() - i,
        {
            if self.compiled[i].0 == id.0 {
                return true;
            }
            i = i + 1;
        }
        false
    }
}

/// The resources of the render world that the node looks for. Each may be
/// missing in a given frame.
#[derive(Clone, Debug, PartialEq, Eq)]
pub struct RenderWorld {
    pub kernel_pipeline: Option<KernelPipeline>,
    pub kernel_bind_group: Option<KernelBindGroup>,
    pub pipeline_cache: Option<PipelineCache>,
}

/// Where the node stands in a frame.
#[derive(Clone, Copy, Debug, PartialEq, Eq, Structural)]
pub enum NodeState {
    /// The pipeline resource is missing.
    PipelineNotReady,
    /// The bind group has not been prepared yet.
    BindGroupNotReady,
    /// The pipeline cache is missing or has not compiled the pipeline yet.
    PipelineNotResolved,
    /// Everything is there.
    ReadyToDispatch,
}

/// A command recorded into a compute pass.
#[derive(Clone, Copy, Debug, PartialEq, Eq, Structural)]
pub enum PassCommand {
    /// Bind the compiled pipeline with this key.
    SetPipeline(PipelineId),
    /// Bind the kernel's bind group at `index`, without dynamic offsets.
    SetBindGroup { index: u32 },
    /// Dispatch `x * y * z` workgroups.
    DispatchWorkgroups { x: u32, y: u32, z: u32 },
}

/// A compute pass with the commands recorded into it. It is closed when the
/// node returns.
#[derive(Clone, Debug, PartialEq, Eq)]
pub struct ComputePass {
    pub label: &'static str,
    pub commands: Vec<PassCommand>,
}

/// What one run of the node did.
#[derive(Clone, Debug, PartialEq, Eq)]
pub struct NodeRun {
    pub state: NodeState,
    /// The pass that was opened: one in a ready frame, none in any other.
    pub pass: Option<ComputePass>,
}

/// The state of the node in a frame with the resources of `world`.
pub open spec fn node_state(world: RenderWorld) -> NodeState {
    if world.kernel_pipeline is None {
        NodeState::PipelineNotReady
    } else if world.kernel_bind_group is None {
        NodeState::BindGroupNotReady
    } else if world.pipeline_cache is None || !world.pipeline_cache->0.resolves(
        world.kernel_pipeline->0.pipeline,
    ) {
        NodeState::PipelineNotResolved
    } else {
        NodeState::ReadyToDispatch
    }
}

/// Whether everything a dispatch needs is there: the pipeline resource, the
/// bind group, and the compiled pipeline that the cache resolves the
/// resource's key to. Only then does the node open a compute pass.
pub open spec fn ready_to_dispatch(world: RenderWorld) -> bool {
    &&& world.kernel_pipeline is Some
    &&& world.kernel_bind_group is Some
    &&& world.pipeline_cache is Some
    &&& world.pipeline_cache->0.resolves(world.kernel_pipeline->0.pipeline)
}

/// The commands of a dispatch: bind the pipeline, bind the bind group, and
/// dispatch a single workgroup.
pub open spec fn kernel_commands(pipeline: PipelineId) -> Seq<PassCommand> {
    seq![
        PassCommand::SetPipeline(pipeline),
        PassCommand::SetBindGroup { index: NUMBERS_BINDING },
        PassCommand::DispatchWorkgroups { x: 1, y: 1, z: 1 },
    ]
}

/// The commands that the node records in a frame.
pub open spec fn recorded_commands(world: RenderWorld) -> Seq<PassCommand> {
    if ready_to_dispatch(world) {
        kernel_commands(world.kernel_pipeline->0.pipeline)
    } else {
        Seq::empty()
    }
}

/// Number of workgroup dispatches among `commands`.
pub open spec fn dispatch_count(commands: Seq<PassCommand>) -> nat
    decreases commands.len(),
{
    if commands.len() == 0 {
        0
    } else {
        let rest = dispatch_count(commands.drop_last());
        if commands.last() is DispatchWorkgroups {
            rest + 1
        } else {
            rest
        }
    }
}

impl NodeRun {
    /// The commands of the run, none where no pass was opened.
    pub open spec fn commands(&self) -> Seq<PassCommand> {
        match self.pass {
            Some(pass) => pass.commands@,
            None => Seq::empty(),
        }
    }

    /// Number of workgroup dispatches that the run recorded.
    pub fn dispatches(&self) -> (count: usize)
        ensures
            count == dispatch_count(self.commands()),
    {
        match &self.pass {
            Some(pass) => {
                let mut count: usize = 0;
                let mut i: usize = 0;
                while i < pass.commands.len()
                    invariant
                        i <= pass.commands@.len(),
                        count <= i,
                        count == dispatch_count(pass.commands@.subrange(0, i as int)),
                    decreases pass.commands@.len() - i,
                {
                    proof {
                        let upto = pass.commands@.subrange(0, i + 1);
                        assert(upto.drop_last() =~= pass.commands@.subrange(0, i as int));
                        assert(upto.last() == pass.commands@[i as int]);
                    }
                    match pass.commands[i] {
                        PassCommand::DispatchWorkgroups { .. } => {
                            count = count + 1;
                        },
                        _ => {},
                    }
                    i = i + 1;
                }
                assert(pass.commands@.subrange(0, i as int) =~= pass.commands@);
                count
            },
            None => 0,
        }
    }
}

/// One dispatch holds exactly one workgroup dispatch.
pub proof fn lemma_kernel_commands_dispatch_once(pipeline: PipelineId)
    ensures
        dispatch_count(kernel_commands(pipeline)) == 1,
{
    let three = kernel_commands(pipeline);
    let two = three.drop_last();
    let one = two.drop_last();
    assert(one.drop_last().len() == 0);
    assert(dispatch_count(one.drop_last()) == 0);
    assert(dispatch_count(one) == 0);
    assert(dispatch_count(two) == 0);
}

/// The node of the render graph that dispatches the kernel.
#[derive(Clone, Copy, Debug, PartialEq, Eq, Structural)]
pub struct DispatchKernel;

impl DispatchKernel {
    /// Runs the node for one frame. With the pipeline resource, the bind
    /// group and the compiled pipeline in place it opens a compute pass and
    /// records one dispatch of a single workgroup into it. Whatever is
    /// missing, the frame is skipped: no pass, no command, no failure.
    pub fn run(&self, world: &RenderWorld) -> (run: NodeRun)
        ensures
            run.state == node_state(*world),
            run.state == NodeState::ReadyToDispatch <==> ready_to_dispatch(*world),
            run.pass is Some <==> ready_to_dispatch(*world),
            run.pass is Some ==> run.pass->0.label@ == PASS_LABEL@,
            run.commands() == recorded_commands(*world),
            ready_to_dispatch(*world) ==> dispatch_count(run.commands()) == 1,
            !ready_to_dispatch(*world) ==> dispatch_count(run.commands()) == 0,
            forall|i: int|
                0 <= i < run.commands().len() && run.commands()[i] is DispatchWorkgroups
                    ==> run.commands()[i] == (PassCommand::DispatchWorkgroups { x: 1, y: 1, z: 1 }),
    {
        match (&world.kernel_pipeline, &world.kernel_bind_group, &world.pipeline_cache) {
            (Some(kernel_pipeline), Some(_), Some(pipeline_cache)) => {
                if pipeline_cache.get_compute_pipeline(kernel_pipeline.pipeline) {
                    let mut commands: Vec<PassCommand> = Vec::new();
                    commands.push(PassCommand::SetPipeline(kernel_pipeline.pipeline));
                    commands.push(PassCommand::SetBindGroup { index: NUMBERS_BINDING });
                    commands.push(PassCommand::DispatchWorkgroups { x: 1, y: 1, z: 1 });
                    proof {
                        assert(commands@ =~= kernel_commands(kernel_pipeline.pipeline));
                        lemma_kernel_commands_dispatch_once(kernel_pipeline.pipeline);
                    }
                    NodeRun {
                        state: NodeState::ReadyToDispatch,
                        pass: Some(ComputePass { label: PASS_LABEL, commands }),
                    }
                } else {
                    NodeRun { state: NodeState::PipelineNotResolved, pass: None }
                }
            },
            (None, _, _) => NodeRun { state: NodeState::PipelineNotReady, pass: None },
            (_, None, _) => NodeRun { state: NodeState::BindGroupNotReady, pass: None },
            (_, _, None) => NodeRun { state: NodeState::PipelineNotResolved, pass: None },
        }
    }
}

} // verus!
