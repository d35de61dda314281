use vstd::prelude::*;

verus! {

/// Where the application stands in its life: not yet created, created and
/// able to render, or torn down. Tearing down twice is ruled out by the
/// contracts below, which demand `Ready` before `destroy`.
#[derive(Clone, Copy, Debug, PartialEq, Eq, Structural)]
pub enum LifecycleState {
    Uninitialized,
    Ready,
    Destroyed,
}

/// One teardown action on a driver handle.
#[derive(Clone, Copy, Debug, PartialEq, Eq, Structural)]
pub enum DestroyStep {
    Messenger,
    Surface,
    Device,
    Instance,
}

/// The fixed teardown order: the messenger (when one was created) first,
/// then the surface, then the device, and the instance strictly last —
/// reverse dependency order, so no step touches a handle whose owner is
/// already gone.
pub open spec fn destroy_sequence_spec(has_messenger: bool) -> Seq<DestroyStep> {
    if has_messenger {
        seq![
            DestroyStep::Messenger,
            DestroyStep::Surface,
            DestroyStep::Device,
            DestroyStep::Instance,
        ]
    } else {
        seq![DestroyStep::Surface, DestroyStep::Device, DestroyStep::Instance]
    }
}

/// Tracks the application's lifecycle and whether a diagnostics messenger
/// was registered at creation, so that teardown can be sequenced in the
/// required order.
#[derive(Clone, Copy, Debug)]
pub struct AppLifecycle {
    pub state: LifecycleState,
    pub has_messenger: bool,
}

impl AppLifecycle {
    /// A fresh application: nothing created yet.
    pub fn new() -> (r: AppLifecycle)
        ensures
            r.state == LifecycleState::Uninitialized,
            !r.has_messenger,
    {
        AppLifecycle { state: LifecycleState::Uninitialized, has_messenger: false }
    }

    /// Records that creation completed: the instance, the surface, the
    /// device and — exactly when diagnostics were enabled — the messenger
    /// now exist. Creation either completes as a whole or fails before
    /// this point, so no partially-constructed state becomes `Ready`.
    pub fn mark_created(&mut self, has_messenger: bool)
        requires
            old(self).state == LifecycleState::Uninitialized,
        ensures
            final(self).state == LifecycleState::Ready,
            final(self).has_messenger == has_messenger,
    {
        self.state = LifecycleState::Ready;
        self.has_messenger = has_messenger;
    }

    /// Renders one frame. A placeholder for frame submission to come:
    /// it decides nothing and changes nothing, and is callable only while
    /// the application is `Ready`.
    pub fn render(&self)
        requires
            self.state == LifecycleState::Ready,
    {
    }

    /// Ends the application's life and hands back the teardown steps in
    /// the one order the driver contract allows. Callable only once, from
    /// `Ready`: a second call is ruled out by the precondition.
    pub fn destroy(&mut self) -> (steps: Vec<DestroyStep>)
        requires
            old(self).state == LifecycleState::Ready,
        ensures
            final(self).state == LifecycleState::Destroyed,
            steps@ == destroy_sequence_spec(old(self).has_messenger),
    {
        let mut steps: Vec<DestroyStep> = Vec::new();
        if self.has_messenger {
            steps.push(DestroyStep::Messenger);
        }
        steps.push(DestroyStep::Surface);
        steps.push(DestroyStep::Device);
        steps.push(DestroyStep::Instance);
        self.state = LifecycleState::Destroyed;
        proof {
            assert(steps@ =~= destroy_sequence_spec(self.has_messenger));
        }
        steps
    }
}

/// Destruction-order law: in any teardown sequence, a messenger step comes
/// strictly before the instance step, and the device step comes strictly
/// before the instance step — whatever sequence of create and destroy led
/// here, and whether or not a messenger was created.
pub proof fn lemma_destroy_order(has_messenger: bool, i: int, j: int)
    requires
        0 <= i < destroy_sequence_spec(has_messenger).len(),
        0 <= j < destroy_sequence_spec(has_messenger).len(),
        destroy_sequence_spec(has_messenger)[i] == DestroyStep::Messenger
            || destroy_sequence_spec(has_messenger)[i] == DestroyStep::Device,
        destroy_sequence_spec(has_messenger)[j] == DestroyStep::Instance,
    ensures
        i < j,
{
}

/// The instance always goes last: its step closes every teardown sequence
/// and occurs nowhere else in it.
pub proof fn lemma_instance_destroyed_last(has_messenger: bool)
    ensures
        destroy_sequence_spec(has_messenger).last() == DestroyStep::Instance,
        forall|i: int|
            0 <= i < destroy_sequence_spec(has_messenger).len() - 1
                ==> destroy_sequence_spec(has_messenger)[i] != DestroyStep::Instance,
{
}

} // verus!
