//! The task-to-caller bridge's settlement protocol.
//!
//! Each request hands its caller a pending handle that is settled —
//! resolved with report text or rejected with a message — exactly once,
//! from a background task.  The protocol that makes this safe is owned
//! and verified here: the execution engine is acquired before any handle
//! exists, so an engine failure is reported synchronously and never
//! leaves an orphaned handle; creating the handle is the last step of a
//! submission and cannot fail; settling demands a pending handle and
//! pins it to its one outcome without touching any other request's.

use vstd::prelude::*;

verus! {

/// A settled request's one outcome: the report text, or a composed
/// failure message.
pub enum Settlement {
    Resolved(String),
    Rejected(String),
}

/// One request's handle: still pending, or settled with its outcome.
pub enum HandleState {
    Pending,
    Settled(Settlement),
}

/// Every handle the bridge has created, by request id (the index).
pub struct Bridge {
    pub handles: Vec<HandleState>,
}

impl Bridge {
    /// A bridge that has created no handles yet.
    pub fn new() -> (b: Bridge)
        ensures
            b.handles@.len() == 0,
    {
        Bridge { handles: Vec::new() }
    }

    /// Accepts a request.  The execution engine is acquired first: when
    /// it is unavailable the request is refused synchronously and no
    /// handle is created at all.  Otherwise the one fallible-free final
    /// step creates the pending handle and returns its id.
    pub fn submit(&mut self, engine_ready: bool) -> (r: Option<usize>)
        ensures
            engine_ready ==> (r matches Some(id) && id as int == old(self).handles@.len()
                && final(self).handles@ == old(self).handles@.push(HandleState::Pending)),
            !engine_ready ==> r is None && final(self).handles@ == old(self).handles@,
    {
        if engine_ready {
            let id = self.handles.len();
            self.handles.push(HandleState::Pending);
            Some(id)
        } else {
            None
        }
    }

    /// Whether the request's handle is still pending.
    pub fn is_pending(&self, id: usize) -> (b: bool)
        requires
            id < self.handles@.len(),
        ensures
            b == (self.handles@[id as int] is Pending),
    {
        match &self.handles[id] {
            HandleState::Pending => true,
            HandleState::Settled(_) => false,
        }
    }

    /// Settles a pending handle with its one outcome.  A handle can
    /// only be settled once: a settled handle never satisfies this
    /// method's precondition again.  No other request's handle changes.
    pub fn settle(&mut self, id: usize, outcome: Settlement)
        requires
            id < old(self).handles@.len(),
            old(self).handles@[id as int] is Pending,
        ensures
            final(self).handles@ == old(self).handles@.update(
                id as int,
                HandleState::Settled(outcome),
            ),
    {
        self.handles.set(id, HandleState::Settled(outcome));
    }
}

/// Settling one request's handle never disturbs another's: after a
/// settlement, every other handle holds exactly the state it held
/// before, and the settled handle holds exactly the given outcome.
pub proof fn lemma_settle_non_interference(pre: Seq<HandleState>, id: int, outcome: Settlement)
    requires
        0 <= id < pre.len(),
    ensures
        forall|j: int|
            0 <= j < pre.len() && j != id ==> #[trigger] pre.update(
                id,
                HandleState::Settled(outcome),
            )[j] == pre[j],
        pre.update(id, HandleState::Settled(outcome))[id] == HandleState::Settled(outcome),
{
}

} // verus!
