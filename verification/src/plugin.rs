//! The plugin: what it registers with the host when the application is
//! finished.

use vstd::prelude::*;

verus! {

/// Name of the dispatch node in the render graph.
pub const NODE_NAME: &'static str = "MY STRING";

/// One step of the registration with the render sub-application.
#[derive(Clone, Copy, Debug, PartialEq, Eq, Structural)]
pub enum Registration {
    /// Initialise the pipeline resource.
    InitKernelPipeline,
    /// Run the bind-group preparation in the prepare phase of every frame.
    AddPrepareSystem,
    /// Add the dispatch node to the render graph, under `NODE_NAME`.
    AddDispatchNode,
    /// Try to add an edge from the camera driver to the dispatch node.
    TryAddEdgeFromCameraDriver,
}

/// How the dispatch node ended up in the render graph.
#[derive(Clone, Copy, Debug, PartialEq, Eq, Structural)]
pub enum Wiring {
    /// The node runs after the camera driver.
    Ordered,
    /// The host refused the edge. The refusal is logged; the node stays in
    /// the graph without that order.
    UnorderedLogged,
}

/// The steps of a full registration, in order.
pub open spec fn registration_steps() -> Seq<Registration> {
    seq![
        Registration::InitKernelPipeline,
        Registration::AddPrepareSystem,
        Registration::AddDispatchNode,
        Registration::TryAddEdgeFromCameraDriver,
    ]
}

/// The plugin that brings the kernel into an application.
#[derive(Clone, Copy, Debug, PartialEq, Eq, Structural)]
pub struct NumbersPlugin;

impl NumbersPlugin {
    /// Registers nothing while the application is being built.
    pub fn build(&self) -> (steps: Vec<Registration>)
        ensures
            steps@ == Seq::<Registration>::empty(),
    {
        Vec::new()
    }

    /// The steps to perform once the application is finished: all of them
    /// where the application has a render sub-application, none where it has
    /// not.
    pub fn finish(&self, has_render_app: bool) -> (steps: Vec<Registration>)
        ensures
            steps@ == (if has_render_app {
                registration_steps()
            } else {
                Seq::empty()
            }),
    {
        let mut steps: Vec<Registration> = Vec::new();
        if has_render_app {
            steps.push(Registration::InitKernelPipeline);
            steps.push(Registration::AddPrepareSystem);
            steps.push(Registration::AddDispatchNode);
            steps.push(Registration::TryAddEdgeFromCameraDriver);
            assert(steps@ =~= registration_steps());
        }
        steps
    }

    /// What follows the host's answer to the edge: a refusal is logged and
    /// never fatal.
    pub fn edge_added(&self, added: bool) -> (wiring: Wiring)
        ensures
            wiring == (if added {
                Wiring::Ordered
            } else {
                Wiring::UnorderedLogged
            }),
    {
        if added {
            Wiring::Ordered
        } else {
            Wiring::UnorderedLogged
        }
    }
}

} // verus!
