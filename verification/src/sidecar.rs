//! The slot that tracks the backend process.

use vstd::prelude::*;

verus! {

/// Optional ownership of the running backend process.
///
/// `H` is whatever the host uses to stop the process. The slot is either
/// empty or holds exactly one handle; the only way out of "present" is
/// [`SidecarSlot::terminate`], which hands the handle to the caller so that
/// the stop request is issued by whoever took it, and by nobody else.
#[derive(Debug)]
pub struct SidecarSlot<H> {
    handle: Option<H>,
}

impl<H> View for SidecarSlot<H> {
    type V = Option<H>;

    closed spec fn view(&self) -> Option<H> {
        self.handle
    }
}

/// The slot's content after a termination: always empty.
pub open spec fn slot_after_terminate<H>(slot: Option<H>) -> Option<H> {
    None
}

/// The handle a termination hands out for stopping: the one that was tracked, if any.
pub open spec fn handle_to_stop<H>(slot: Option<H>) -> Option<H> {
    slot
}

impl<H> SidecarSlot<H> {
    /// An empty slot: no process is tracked.
    pub fn new() -> (slot: Self)
        ensures
            slot@ is None,
    {
        SidecarSlot { handle: None }
    }

    /// Whether a process is tracked.
    pub fn is_present(&self) -> (present: bool)
        ensures
            present == (self@ is Some),
    {
        self.handle.is_some()
    }

    /// Tracks `handle`, in place of whatever was tracked before.
    pub fn store(&mut self, handle: H)
        ensures
            final(self)@ == Some(handle),
    {
        self.handle = Some(handle);
    }

    /// Empties the slot and returns the handle that was in it.
    ///
    /// The caller sends the stop request to the returned handle, if there is
    /// one. On an empty slot nothing changes and nothing is returned, so a
    /// second call in a row never yields a handle.
    pub fn terminate(&mut self) -> (taken: Option<H>)
        ensures
            taken == handle_to_stop(old(self)@),
            final(self)@ == slot_after_terminate(old(self)@),
    {
        self.handle.take()
    }
}

/// Terminating twice leaves the slot as terminating once does, and the
/// second termination hands out no handle: the process is stopped once.
pub proof fn lemma_terminate_idempotent<H>(slot: Option<H>)
    ensures
        slot_after_terminate(slot_after_terminate(slot)) == slot_after_terminate(slot),
        handle_to_stop(slot_after_terminate(slot)) is None,
{
}

} // verus!
