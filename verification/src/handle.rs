//! The shared allocation and the handle protocol around it: creation hands
//! out the first handle, cloning hands out further ones, releasing consumes
//! them, and once the last release has signaled, the finalizer takes the
//! payload by value — sole ownership — and runs its one-time cleanup.

use vstd::prelude::*;
use crate::cell::{CellState, ReleaseAction};

verus! {

/// The finalizer capability: the one-time cleanup a payload type performs
/// when the last handle to it has gone. Consumes the value; the value's
/// memory is released only after it returns.
pub trait AsyncDrop {
    /// Consumes the value and performs its cleanup, exactly once per
    /// allocation.
    fn async_drop(self);
}

/// A shared-ownership token for one [`SharedCell`]. Handles come only from
/// [`SharedCell::new`] and [`SharedCell::clone_handle`], and only
/// [`SharedCell::release`] consumes one — by value, so a handle cannot be
/// released twice, and no handle survives its release.
pub struct Handle {
    _private: (),
}

/// The shared allocation: the payload together with its counter state.
/// Jointly owned by the outstanding handles until the last release, then
/// solely by the finalizer.
pub struct SharedCell<T> {
    /// The payload.
    pub value: T,
    /// The counter state: how many handles are out, and whether the
    /// finalizer has been signaled.
    pub state: CellState,
}

impl<T> SharedCell<T> {
    /// Allocates the cell around `value` and hands out the first handle:
    /// count one, nothing signaled.
    pub fn new(value: T) -> (r: (SharedCell<T>, Handle))
        ensures
            r.0.state.wf(),
            r.0.state.count == 1,
            !r.0.state.signaled,
            r.0.value == value,
    {
        (SharedCell { value, state: CellState::new() }, Handle { _private: () })
    }

    /// Clones a handle: the caller shows it holds one, the count goes up by
    /// one, and the payload is untouched.
    pub fn clone_handle(&mut self, _handle: &Handle) -> (h: Handle)
        requires
            old(self).state.wf(),
            old(self).state.live(),
            old(self).state.count < usize::MAX,
        ensures
            final(self).state.wf(),
            final(self).state.count == old(self).state.count + 1,
            !final(self).state.signaled,
            final(self).value == old(self).value,
    {
        self.state.clone_step();
        Handle { _private: () }
    }

    /// Releases a handle, consuming it: the count goes down by one, and the
    /// release that observes the count at one — the last — signals the
    /// finalizer, exactly once over the cell's lifetime.
    pub fn release(&mut self, _handle: Handle) -> (r: ReleaseAction)
        requires
            old(self).state.wf(),
            old(self).state.live(),
        ensures
            final(self).state.wf(),
            final(self).state.count == old(self).state.count - 1,
            r is Signal <==> old(self).state.count == 1,
            final(self).state.signaled <==> old(self).state.count == 1,
            final(self).value == old(self).value,
    {
        self.state.release_step()
    }

    /// Read-only view of the payload, for a caller that still holds a
    /// handle. No mutable access exists: mutation is the caller's layer.
    pub fn access(&self, _handle: &Handle) -> (r: &T)
        requires
            self.state.live(),
        ensures
            *r == self.value,
    {
        &self.value
    }

    /// Unwraps the payload once the finalizer has been signaled: the zero
    /// transition has happened, so no handle is left and ownership is sole.
    pub fn into_value(self) -> (v: T)
        requires
            self.state.signaled,
        ensures
            v == self.value,
    {
        self.value
    }
}

impl<T: AsyncDrop> SharedCell<T> {
    /// The finalizing step of the finalizer task: takes sole ownership of
    /// the signaled cell and runs the payload's one-time cleanup; the cell
    /// is consumed, so no second invocation can occur.
    pub fn finalize(self)
        requires
            self.state.signaled,
    {
        self.into_value().async_drop()
    }
}

} // verus!
