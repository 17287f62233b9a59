//! The state behind a cancellation token: whether the job was asked to stop,
//! and which child process belongs to it. The token itself, shared between
//! the caller and the worker, guards one value of this type.

use vstd::prelude::*;

verus! {

/// What a cancellation token knows.
#[derive(Debug, Clone, Copy, PartialEq, Eq, Structural)]
pub struct CancelState {
    /// The job was asked to stop. Once set this is never cleared.
    pub cancelled: bool,
    /// The child process that works for the job at the moment, if any.
    pub child_pid: Option<u32>,
}

impl CancelState {
    /// The state of a token nobody has used yet.
    pub fn new() -> (s: CancelState)
        ensures
            s == (CancelState { cancelled: false, child_pid: None }),
    {
        CancelState { cancelled: false, child_pid: None }
    }

    /// Whether the job was asked to stop.
    pub fn is_cancelled(&self) -> (r: bool)
        ensures
            r == self.cancelled,
    {
        self.cancelled
    }

    /// Asks the job to stop. Returns the child process that has to be told
    /// to end: a worker that waits for the child's output would not notice
    /// the request before the child ends by itself.
    pub fn cancel(&mut self) -> (signal: Option<u32>)
        ensures
            final(self).cancelled,
            final(self).child_pid == old(self).child_pid,
            signal == old(self).child_pid,
    {
        self.cancelled = true;
        self.child_pid
    }

    /// Notes that the child process `pid` works for the job from now on.
    /// Returns whether the child has to be told to end at once, because the
    /// job was asked to stop before the child was known.
    pub fn register_child(&mut self, pid: u32) -> (signal: bool)
        ensures
            final(self).cancelled == old(self).cancelled,
            final(self).child_pid == Some(pid),
            signal == old(self).cancelled,
    {
        self.child_pid = Some(pid);
        self.cancelled
    }

    /// Notes that no child process works for the job any more.
    pub fn release_child(&mut self)
        ensures
            final(self).cancelled == old(self).cancelled,
            final(self).child_pid is None,
    {
        self.child_pid = None;
    }

    /// Whether a worker may take up the next file.
    pub fn may_start(&self) -> (r: bool)
        ensures
            r == !self.cancelled,
    {
        !self.cancelled
    }
}

/// A request to stop is never taken back: whatever is done with a token
/// after it, the job stays cancelled, and a child that is registered late is
/// told to end at once.
pub proof fn lemma_cancel_is_final(s: CancelState, pid: u32)
    requires
        s.cancelled,
    ensures
        (CancelState { child_pid: Some(pid), ..s }).cancelled,
        (CancelState { child_pid: None, ..s }).cancelled,
{
}

} // verus!
