//! The shared state slot between an element's driver and its user future,
//! and the context handle the user future receives.

use crate::broadcast::SupervisorRef;
use crate::children::{ChildRef, ChildrenRef};
use crate::message::{BastionId, Msg, MsgView};
use crate::plumbing;
use vstd::prelude::*;

verus! {

/// First-in-first-out queue of user payloads awaiting the user future.
/// The element's driver pushes what arrives; the user future pops through
/// its [`BastionContext`]. The two run as distinct tasks, so the slot always
/// sits behind an asynchronous mutex held only across one push or one pop.
pub struct ContextState {
    msgs: Vec<Msg>,
}

impl View for ContextState {
    type V = Seq<MsgView>;

    closed spec fn view(&self) -> Seq<MsgView> {
        self.msgs@.map(|i: int, m: Msg| m@)
    }
}

impl ContextState {
    pub fn new() -> (r: ContextState)
        ensures
            r@ == Seq::<MsgView>::empty(),
    {
        ContextState { msgs: Vec::new() }
    }

    pub fn len(&self) -> (r: usize)
        ensures
            r == self@.len(),
    {
        self.msgs.len()
    }

    /// Appends one payload at the back: delivery keeps arrival order.
    pub fn push(&mut self, msg: Msg)
        ensures
            final(self)@ == old(self)@.push(msg@),
    {
        self.msgs.push(msg);
    }

    /// Removes and returns the oldest payload, or nothing when the queue is
    /// empty: strictly first-in-first-out.
    pub fn pop(&mut self) -> (r: Option<Msg>)
        ensures
            old(self)@.len() == 0 ==> r is None && final(self)@ == old(self)@,
            old(self)@.len() > 0 ==> (r matches Some(m) && m@ == old(self)@[0]
                && final(self)@ == old(self)@.skip(1)),
    {
        if self.msgs.len() == 0 {
            None
        } else {
            let m = self.msgs.remove(0);
            Some(m)
        }
    }
}

/// Mathematical shape of a [`BastionContext`]: the identifiers it exposes.
#[verifier::ext_equal]
pub struct ContextView {
    pub id: u64,
    pub child: u64,
    pub group: u64,
    pub supervisor: u64,
}

/// The read-only handle a user future receives: its own identifier and
/// handle, the owning group's handle, the owning supervisor's handle, and
/// the shared state slot it pulls payloads from.
pub struct BastionContext {
    id: BastionId,
    child: ChildRef,
    children: ChildrenRef,
    supervisor: SupervisorRef,
    state: qutex::Qutex<ContextState>,
}

impl View for BastionContext {
    type V = ContextView;

    closed spec fn view(&self) -> ContextView {
        ContextView {
            id: self.id@,
            child: self.child@,
            group: self.children@.id,
            supervisor: self.supervisor@,
        }
    }
}

impl BastionContext {
    pub(crate) fn new(
        id: BastionId,
        child: ChildRef,
        children: ChildrenRef,
        supervisor: SupervisorRef,
        state: qutex::Qutex<ContextState>,
    ) -> (r: BastionContext)
        ensures
            r@ == (ContextView { id: id@, child: child@, group: children@.id, supervisor: supervisor@ }),
    {
        BastionContext { id, child, children, supervisor, state }
    }

    /// The identifier of the element this context belongs to.
    pub fn id(&self) -> (r: &BastionId)
        ensures
            r@ == self@.id,
    {
        &self.id
    }

    /// The handle addressing the element itself.
    pub fn current_child(&self) -> (r: &ChildRef)
        ensures
            r@ == self@.child,
    {
        &self.child
    }

    /// The handle addressing the owning group.
    pub fn current_children(&self) -> (r: &ChildrenRef)
        ensures
            r@.id == self@.group,
    {
        &self.children
    }

    /// The handle addressing the owning supervisor.
    pub fn supervisor(&self) -> (r: &SupervisorRef)
        ensures
            r@ == self@.supervisor,
    {
        &self.supervisor
    }

    /// A handle on the shared state slot, for the user future to pull
    /// payloads from under the mutex.
    pub fn state_handle(&self) -> qutex::Qutex<ContextState> {
        plumbing::clone_qutex(&self.state)
    }
}

} // verus!
