//! What holds of the frame logic as a whole.

use vstd::prelude::*;
use crate::bind_group::{
    bind_group_of, prepared_slot, slot_view, AsBindGroupError, BindGroupView,
};
use crate::node::{
    dispatch_count, lemma_kernel_commands_dispatch_once, node_state, ready_to_dispatch,
    recorded_commands, NodeState, PassCommand, RenderWorld,
};
use crate::numbers::startup_numbers;
use crate::pipeline::BindGroupLayoutView;

verus! {

/// In a frame that has the pipeline resource, the bind group and the
/// resolved pipeline, the node records exactly one workgroup dispatch, of
/// size (1, 1, 1).
pub proof fn lemma_ready_frame_dispatches_once(world: RenderWorld)
    requires
        ready_to_dispatch(world),
    ensures
        node_state(world) == NodeState::ReadyToDispatch,
        dispatch_count(recorded_commands(world)) == 1,
        forall|i: int|
            0 <= i < recorded_commands(world).len() && recorded_commands(world)[i]
                is DispatchWorkgroups ==> recorded_commands(world)[i] == (
            PassCommand::DispatchWorkgroups { x: 1, y: 1, z: 1 }),
{
    lemma_kernel_commands_dispatch_once(world.kernel_pipeline->0.pipeline);
}

/// In a frame that lacks any of the three, the node records nothing, so no
/// dispatch, and its state is not ready-to-dispatch.
pub proof fn lemma_unready_frame_dispatches_nothing(world: RenderWorld)
    requires
        !ready_to_dispatch(world),
    ensures
        node_state(world) != NodeState::ReadyToDispatch,
        recorded_commands(world).len() == 0,
        dispatch_count(recorded_commands(world)) == 0,
{
}

/// The buffer starts with 32 integers, each of them 1.
pub proof fn lemma_startup_numbers()
    ensures
        startup_numbers().len() == 32,
        forall|i: int| 0 <= i < 32 ==> startup_numbers()[i] == 1,
{
}

/// Preparation is idempotent. A second preparation with the same buffer,
/// layout and outcome leaves the slot as the first one left it, and what a
/// successful build stores depends on the buffer and the layout alone, not
/// on what the slot held.
pub proof fn lemma_prepare_idempotent(
    slot: Option<BindGroupView>,
    other: Option<BindGroupView>,
    numbers: Seq<i32>,
    layout: BindGroupLayoutView,
    built: Result<(), AsBindGroupError>,
)
    ensures
        prepared_slot(prepared_slot(slot, numbers, layout, built), numbers, layout, built)
            == prepared_slot(slot, numbers, layout, built),
        prepared_slot(slot, numbers, layout, Ok(())) == prepared_slot(other, numbers, layout, Ok(())),
        prepared_slot(slot, numbers, layout, Ok(())) == Some(bind_group_of(numbers, layout)),
        bind_group_of(numbers, layout).buffer == numbers,
{
}

/// A frame whose preparation succeeds, in a world that has the pipeline
/// resource and a cache that resolves its key, dispatches once, and the
/// bind group it uses binds the buffer as it was handed to the preparation.
pub proof fn lemma_prepared_frame_dispatches_once(
    world: RenderWorld,
    before: Option<BindGroupView>,
    numbers: Seq<i32>,
)
    requires
        world.kernel_pipeline is Some,
        world.pipeline_cache is Some,
        world.pipeline_cache->0.resolves(world.kernel_pipeline->0.pipeline),
        slot_view(world.kernel_bind_group) == prepared_slot(
            before,
            numbers,
            world.kernel_pipeline->0@.bind_group_layout,
            Ok(()),
        ),
    ensures
        ready_to_dispatch(world),
        dispatch_count(recorded_commands(world)) == 1,
        world.kernel_bind_group->0@.buffer == numbers,
{
    lemma_kernel_commands_dispatch_once(world.kernel_pipeline->0.pipeline);
}

/// A frame whose preparation is deferred while the render world holds no
/// bind group yet dispatches nothing, whatever else is there.
pub proof fn lemma_deferred_first_frame_dispatches_nothing(world: RenderWorld, numbers: Seq<i32>)
    requires
        world.kernel_pipeline is Some,
        slot_view(world.kernel_bind_group) == prepared_slot(
            None,
            numbers,
            world.kernel_pipeline->0@.bind_group_layout,
            Err(AsBindGroupError::RetryNextUpdate),
        ),
    ensures
        node_state(world) == NodeState::BindGroupNotReady,
        !ready_to_dispatch(world),
        recorded_commands(world).len() == 0,
        dispatch_count(recorded_commands(world)) == 0,
{
}

} // verus!
