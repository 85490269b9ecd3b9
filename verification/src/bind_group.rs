//! The bind group of the kernel and its preparation, once per frame.

use vstd::prelude::*;
use crate::numbers::{copy_of, MyNumbers};
use crate::pipeline::{BindGroupLayout, BindGroupLayoutView, KernelPipeline, NUMBERS_BINDING};

verus! {

/// Why the host could not build a bind group in this frame.
#[derive(Clone, Copy, Debug, PartialEq, Eq, Structural)]
pub enum AsBindGroupError {
    /// Something the bind group needs is not loaded yet; the next frame may
    /// succeed.
    RetryNextUpdate,
}

/// A bind group, described by what it binds: one storage buffer with a
/// snapshot of the integers, under the layout it was built for.
#[derive(Clone, Debug, PartialEq, Eq)]
pub struct BindGroup {
    pub layout: BindGroupLayout,
    pub binding: u32,
    pub buffer: Vec<i32>,
}

/// Mathematical value of a [`BindGroup`].
pub struct BindGroupView {
    pub layout: BindGroupLayoutView,
    pub binding: u32,
    pub buffer: Seq<i32>,
}

impl View for BindGroup {
    type V = BindGroupView;

    open spec fn view(&self) -> BindGroupView {
        BindGroupView { layout: self.layout@, binding: self.binding, buffer: self.buffer@ }
    }
}

/// The bind-group resource of the render world.
#[derive(Clone, Debug, PartialEq, Eq)]
pub struct KernelBindGroup(pub BindGroup);

impl View for KernelBindGroup {
    type V = BindGroupView;

    open spec fn view(&self) -> BindGroupView {
        self.0@
    }
}

/// What one preparation did.
#[derive(Clone, Copy, Debug, PartialEq, Eq, Structural)]
pub enum Prepared {
    /// A new bind group replaced what the render world held.
    Stored,
    /// The build was deferred; the render world keeps what it held.
    RetryNextUpdate,
}

/// The bind group that a successful build yields for `numbers` under `layout`.
pub open spec fn bind_group_of(numbers: Seq<i32>, layout: BindGroupLayoutView) -> BindGroupView {
    BindGroupView { layout, binding: NUMBERS_BINDING, buffer: numbers }
}

/// Mathematical value of the render world's bind-group slot.
pub open spec fn slot_view(slot: Option<KernelBindGroup>) -> Option<BindGroupView> {
    match slot {
        Some(group) => Some(group@),
        None => None,
    }
}

/// The slot after one preparation: a successful build replaces its content,
/// a deferred one leaves it alone.
pub open spec fn prepared_slot(
    slot: Option<BindGroupView>,
    numbers: Seq<i32>,
    layout: BindGroupLayoutView,
    built: Result<(), AsBindGroupError>,
) -> Option<BindGroupView> {
    match built {
        Ok(_) => Some(bind_group_of(numbers, layout)),
        Err(_) => slot,
    }
}

/// Prepares the kernel's bind group for one frame. `built` is the outcome of
/// the host's build for `numbers` under the pipeline's layout, `slot` the
/// bind-group resource of the render world.
pub fn prepare_my_numbers(
    numbers: &MyNumbers,
    pipeline: &KernelPipeline,
    built: Result<(), AsBindGroupError>,
    slot: &mut Option<KernelBindGroup>,
) -> (status: Prepared)
    ensures
        slot_view(*final(slot)) == prepared_slot(
            slot_view(*old(slot)),
            numbers@,
            pipeline@.bind_group_layout,
            built,
        ),
        built is Err ==> *final(slot) == *old(slot),
        status == (match built {
            Ok(_) => Prepared::Stored,
            Err(_) => Prepared::RetryNextUpdate,
        }),
{
    match built {
        Ok(_) => {
            let group = BindGroup {
                layout: pipeline.bind_group_layout.duplicate(),
                binding: NUMBERS_BINDING,
                buffer: copy_of(numbers.number()),
            };
            *slot = Some(KernelBindGroup(group));
            Prepared::Stored
        },
        Err(AsBindGroupError::RetryNextUpdate) => Prepared::RetryNextUpdate,
    }
}

} // verus!
