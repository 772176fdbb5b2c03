//! The supervised process handle.
//!
//! The supervisor owns at most one child process at a time. Its handle lives
//! in a `ProcessSlot`: absent until a spawn succeeds, and cleared again when
//! the owned process is told to terminate. The driver keeps the slot behind
//! its lock next to the real OS handle, identified here by the child's
//! process id, and sends a termination signal exactly when
//! [`ProcessSlot::terminate_if_present`] hands an id back.

use vstd::prelude::*;

verus! {

/// Holds the id of the one child process the supervisor owns, if any.
#[derive(Clone, Copy, Debug)]
pub struct ProcessSlot {
    pub handle: Option<u64>,
}

/// What terminating does to a slot: an occupied slot is emptied and its
/// process id is handed back as the one termination order; an empty slot is
/// left untouched and no order is given.
pub open spec fn terminate_spec(s: ProcessSlot) -> (ProcessSlot, Option<u64>) {
    match s.handle {
        Some(pid) => (ProcessSlot { handle: None }, Some(pid)),
        None => (s, None),
    }
}

impl ProcessSlot {
    /// A slot that owns no process.
    pub fn empty() -> (s: Self)
        ensures
            s.handle is None,
    {
        ProcessSlot { handle: None }
    }

    /// Records the result of one spawn attempt: the new child's id, or
    /// nothing when the spawn failed, which leaves the slot absent. Only an
    /// empty slot may record a spawn: at most one owned child exists at a
    /// time.
    pub fn record_spawn(&mut self, handle: Option<u64>)
        requires
            old(self).handle is None,
        ensures
            final(self).handle == handle,
    {
        self.handle = handle;
    }

    /// Whether the slot currently owns a process.
    pub fn occupied(&self) -> (r: bool)
        ensures
            r == (self.handle is Some),
    {
        self.handle.is_some()
    }

    /// Gives up ownership of the process without terminating it.
    pub fn take(&mut self) -> (r: Option<u64>)
        ensures
            r == old(self).handle,
            final(self).handle is None,
    {
        let r = self.handle;
        self.handle = None;
        r
    }

    /// The window-destroy cleanup decision: if a process is owned, hand its
    /// id back as the one termination order and empty the slot; otherwise do
    /// nothing and order no signal.
    pub fn terminate_if_present(&mut self) -> (r: Option<u64>)
        ensures
            (*final(self), r) == terminate_spec(*old(self)),
            old(self).handle is Some ==> r == old(self).handle && final(self).handle is None,
            old(self).handle is None ==> r is None && *final(self) == *old(self),
    {
        match self.handle {
            Some(pid) => {
                self.handle = None;
                Some(pid)
            },
            None => None,
        }
    }
}

/// Cleanup on a slot that never held a process is a no-op: the slot is
/// unchanged and no termination signal is ordered.
pub proof fn lemma_cleanup_without_spawn(s: ProcessSlot)
    requires
        s.handle is None,
    ensures
        terminate_spec(s) == (s, None::<u64>),
{
}

/// Cleanup on a slot that holds a spawned process orders exactly one
/// termination signal, to that process; a repeated cleanup finds the slot
/// empty and orders no further signal.
pub proof fn lemma_cleanup_signals_once(s: ProcessSlot, pid: u64)
    requires
        s.handle == Some(pid),
    ensures
        ({
            let (s1, first) = terminate_spec(s);
            let (s2, second) = terminate_spec(s1);
            &&& first == Some(pid)
            &&& s1.handle is None
            &&& second is None
            &&& s2 == s1
        }),
{
}

} // verus!
