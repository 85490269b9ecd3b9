use numbers_kernel::bind_group::{
    prepare_my_numbers, AsBindGroupError, BindGroup, KernelBindGroup,
};
use numbers_kernel::node::{
    ComputePass, DispatchKernel, NodeRun, NodeState, PassCommand, PipelineCache, RenderWorld,
    PASS_LABEL,
};
use numbers_kernel::numbers::{setup, MyNumbers};
use numbers_kernel::pipeline::{KernelPipeline, PipelineId};

fn bind_group() -> KernelBindGroup {
    KernelBindGroup(BindGroup { layout: KernelPipeline::layout(), binding: 0, buffer: vec![1; 32] })
}

fn cache(ids: Vec<usize>) -> PipelineCache {
    PipelineCache { compiled: ids.into_iter().map(PipelineId).collect() }
}

fn world(pipeline: Option<usize>, group: bool, compiled: Option<Vec<usize>>) -> RenderWorld {
    RenderWorld {
        kernel_pipeline: pipeline.map(|id| KernelPipeline::from_world(PipelineId(id))),
        kernel_bind_group: if group { Some(bind_group()) } else { None },
        pipeline_cache: compiled.map(cache),
    }
}

#[test]
fn pass_label() {
    assert_eq!(PASS_LABEL, "Kernel Compute Pass");
}

#[test]
fn ready_frame_dispatches_one_workgroup() {
    let run = DispatchKernel.run(&world(Some(4), true, Some(vec![4])));
    assert_eq!(run.state, NodeState::ReadyToDispatch);
    assert_eq!(run.dispatches(), 1);
    let pass = run.pass.unwrap();
    assert_eq!(pass.label, "Kernel Compute Pass");
    assert_eq!(
        pass.commands,
        vec![
            PassCommand::SetPipeline(PipelineId(4)),
            PassCommand::SetBindGroup { index: 0 },
            PassCommand::DispatchWorkgroups { x: 1, y: 1, z: 1 },
        ]
    );
}

#[test]
fn ready_frame_finds_its_key_among_others() {
    let run = DispatchKernel.run(&world(Some(2), true, Some(vec![0, 1, 2, 3])));
    assert_eq!(run.state, NodeState::ReadyToDispatch);
    assert_eq!(run.dispatches(), 1);
    assert_eq!(run.pass.unwrap().commands[0], PassCommand::SetPipeline(PipelineId(2)));
}

#[test]
fn missing_pipeline_resource_skips_the_frame() {
    let run = DispatchKernel.run(&world(None, true, Some(vec![0])));
    assert_eq!(run.state, NodeState::PipelineNotReady);
    assert_eq!(run.pass, None);
    assert_eq!(run.dispatches(), 0);
}

#[test]
fn missing_bind_group_skips_the_frame() {
    let run = DispatchKernel.run(&world(Some(0), false, Some(vec![0])));
    assert_eq!(run.state, NodeState::BindGroupNotReady);
    assert_eq!(run.pass, None);
    assert_eq!(run.dispatches(), 0);
}

#[test]
fn missing_cache_skips_the_frame() {
    let run = DispatchKernel.run(&world(Some(0), true, None));
    assert_eq!(run.state, NodeState::PipelineNotResolved);
    assert_eq!(run.pass, None);
    assert_eq!(run.dispatches(), 0);
}

#[test]
fn unresolved_pipeline_opens_no_pass() {
    let run = DispatchKernel.run(&world(Some(0), true, Some(vec![])));
    assert_eq!(run.state, NodeState::PipelineNotResolved);
    assert_eq!(run.dispatches(), 0);
    assert_eq!(run.pass, None);
    assert_eq!(run, NodeRun { state: NodeState::PipelineNotResolved, pass: None });
}

#[test]
fn other_compiled_pipelines_do_not_count() {
    let run = DispatchKernel.run(&world(Some(5), true, Some(vec![0, 1, 2, 3, 4, 6])));
    assert_eq!(run.state, NodeState::PipelineNotResolved);
    assert_eq!(run.dispatches(), 0);
}

#[test]
fn empty_world_skips_the_frame() {
    let run = DispatchKernel.run(&world(None, false, None));
    assert_eq!(run, NodeRun { state: NodeState::PipelineNotReady, pass: None });
    assert_eq!(run.dispatches(), 0);
}

#[test]
fn state_names_the_first_missing_resource() {
    assert_eq!(
        DispatchKernel.run(&world(None, false, Some(vec![0]))).state,
        NodeState::PipelineNotReady
    );
    assert_eq!(DispatchKernel.run(&world(None, true, None)).state, NodeState::PipelineNotReady);
    assert_eq!(DispatchKernel.run(&world(Some(0), false, None)).state, NodeState::BindGroupNotReady);
}

#[test]
fn every_unready_combination_dispatches_nothing() {
    for pipeline in [None, Some(1)] {
        for group in [false, true] {
            for compiled in [None, Some(vec![]), Some(vec![1])] {
                let ready = pipeline.is_some() && group && compiled == Some(vec![1]);
                let run = DispatchKernel.run(&world(pipeline, group, compiled));
                assert_eq!(run.dispatches(), if ready { 1 } else { 0 });
                assert_eq!(run.state == NodeState::ReadyToDispatch, ready);
                assert_eq!(run.pass.is_some(), ready);
            }
        }
    }
}

#[test]
fn cache_lookup() {
    let cache = cache(vec![3, 1, 4]);
    assert!(cache.get_compute_pipeline(PipelineId(3)));
    assert!(cache.get_compute_pipeline(PipelineId(4)));
    assert!(!cache.get_compute_pipeline(PipelineId(2)));
    assert!(!PipelineCache { compiled: vec![] }.get_compute_pipeline(PipelineId(0)));
}

#[test]
fn dispatches_counts_dispatch_commands_only() {
    let run = NodeRun {
        state: NodeState::ReadyToDispatch,
        pass: Some(ComputePass {
            label: "hand made",
            commands: vec![
                PassCommand::DispatchWorkgroups { x: 2, y: 1, z: 1 },
                PassCommand::SetPipeline(PipelineId(0)),
                PassCommand::DispatchWorkgroups { x: 1, y: 1, z: 1 },
                PassCommand::SetBindGroup { index: 0 },
                PassCommand::DispatchWorkgroups { x: 1, y: 3, z: 1 },
            ],
        }),
    };
    assert_eq!(run.dispatches(), 3);
}

#[test]
fn startup_then_prepare_then_one_dispatch() {
    let numbers = setup();
    let pipeline = KernelPipeline::from_world(PipelineId(0));
    let snapshot = MyNumbers::extract_resource(&numbers);
    let mut slot = None;
    prepare_my_numbers(&snapshot, &pipeline, Ok(()), &mut slot);
    assert_eq!(slot.as_ref().unwrap().0.buffer, vec![1; 32]);
    let world = RenderWorld {
        kernel_pipeline: Some(pipeline),
        kernel_bind_group: slot,
        pipeline_cache: Some(cache(vec![0])),
    };
    let run = DispatchKernel.run(&world);
    assert_eq!(run.dispatches(), 1);
    assert_eq!(
        run.pass.unwrap().commands.last(),
        Some(&PassCommand::DispatchWorkgroups { x: 1, y: 1, z: 1 })
    );
}

#[test]
fn dispatch_appears_once_the_cache_resolves() {
    let numbers = setup();
    let pipeline = KernelPipeline::from_world(PipelineId(0));
    let mut slot = None;
    prepare_my_numbers(&numbers, &pipeline, Ok(()), &mut slot);
    let mut world = RenderWorld {
        kernel_pipeline: Some(pipeline),
        kernel_bind_group: slot,
        pipeline_cache: Some(cache(vec![])),
    };
    let first = DispatchKernel.run(&world);
    assert_eq!(first.state, NodeState::PipelineNotResolved);
    assert_eq!(first.dispatches(), 0);
    assert_eq!(first.pass, None);
    let second = DispatchKernel.run(&world);
    assert_eq!(second.dispatches(), 0);
    world.pipeline_cache = Some(cache(vec![0]));
    let third = DispatchKernel.run(&world);
    assert_eq!(third.state, NodeState::ReadyToDispatch);
    assert_eq!(third.dispatches(), 1);
    let fourth = DispatchKernel.run(&world);
    assert_eq!(fourth.dispatches(), 1);
}

#[test]
fn dispatch_appears_once_the_bind_group_is_built() {
    let numbers = setup();
    let pipeline = KernelPipeline::from_world(PipelineId(0));
    let mut world = RenderWorld {
        kernel_pipeline: Some(pipeline.clone()),
        kernel_bind_group: None,
        pipeline_cache: Some(cache(vec![0])),
    };
    prepare_my_numbers(
        &numbers,
        &pipeline,
        Err(AsBindGroupError::RetryNextUpdate),
        &mut world.kernel_bind_group,
    );
    let first = DispatchKernel.run(&world);
    assert_eq!(first.state, NodeState::BindGroupNotReady);
    assert_eq!(first.dispatches(), 0);
    prepare_my_numbers(&numbers, &pipeline, Ok(()), &mut world.kernel_bind_group);
    let second = DispatchKernel.run(&world);
    assert_eq!(second.dispatches(), 1);
    prepare_my_numbers(
        &numbers,
        &pipeline,
        Err(AsBindGroupError::RetryNextUpdate),
        &mut world.kernel_bind_group,
    );
    let third = DispatchKernel.run(&world);
    assert_eq!(third.dispatches(), 1);
}
