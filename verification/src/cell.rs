//! The counter discipline of one shared allocation, and the handle protocol
//! built on it: clone increments, release decrements, and the release that
//! observes the count at one signals the finalizer, exactly once.

use vstd::prelude::*;

verus! {

/// The counter state of one shared allocation: how many handles are
/// outstanding, and whether the finalizer has been signaled.
#[derive(Clone, Copy, PartialEq, Eq, Structural, Debug)]
pub struct CellState {
    /// Number of outstanding handles.
    pub count: usize,
    /// Whether the zero transition has happened and the finalizer was woken.
    pub signaled: bool,
}

impl CellState {
    /// Lifecycle invariant: the finalizer is signaled exactly when no handle
    /// is left. Creation establishes it and every step preserves it.
    pub open spec fn wf(self) -> bool {
        self.signaled <==> self.count == 0
    }

    /// At least one handle is outstanding.
    pub open spec fn live(self) -> bool {
        self.count >= 1
    }

    /// The state of a freshly created allocation: one handle, no signal.
    pub fn new() -> (s: CellState)
        ensures
            s.wf(),
            s.count == 1,
            !s.signaled,
    {
        CellState { count: 1, signaled: false }
    }

    /// A clone performed by a task that holds a handle: the count goes up by
    /// one and nothing is signaled.
    pub fn clone_step(&mut self)
        requires
            old(self).wf(),
            old(self).live(),
            old(self).count < usize::MAX,
        ensures
            final(self).wf(),
            final(self).count == old(self).count + 1,
            !final(self).signaled,
    {
        self.count = self.count + 1;
    }

    /// A release performed by a task that holds a handle: the count goes down
    /// by one, and the release that observes the count at one — the last one —
    /// signals the finalizer. Exactly that release, and no other, returns
    /// [`ReleaseAction::Signal`].
    pub fn release_step(&mut self) -> (r: ReleaseAction)
        requires
            old(self).wf(),
            old(self).live(),
        ensures
            final(self).wf(),
            final(self).count == old(self).count - 1,
            r is Signal <==> old(self).count == 1,
            final(self).signaled <==> old(self).count == 1,
    {
        self.count = self.count - 1;
        if self.count == 0 {
            self.signaled = true;
            ReleaseAction::Signal
        } else {
            ReleaseAction::Keep
        }
    }
}

/// What a releasing task must do next: wake the finalizer, or nothing.
#[derive(Clone, Copy, PartialEq, Eq, Structural, Debug)]
pub enum ReleaseAction {
    /// Other handles remain; the release is done.
    Keep,
    /// This release was the last: signal the notification channel, once.
    Signal,
}

/// Law: finalization never observes a live handle. In any well-formed state
/// in which the finalizer has been signaled, the count is zero, so no caller
/// can meet the liveness precondition of an access.
pub proof fn lemma_finalization_excludes_access(s: CellState)
    requires
        s.wf(),
        s.signaled,
    ensures
        !s.live(),
{
}

/// The zero-transition test of the release protocol, on the value the atomic
/// decrement hands back: a release signals the finalizer exactly when the
/// count it observed — the value before its own decrement — was one.
pub fn release_observes_zero(previous_count: usize) -> (r: bool)
    ensures
        r <==> previous_count == 1,
{
    previous_count == 1
}

} // verus!
