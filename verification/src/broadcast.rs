//! The per-entity broadcast endpoint: an inbox, a registry of child
//! endpoints for downward fan-out, and a typed parent link for upward
//! notices.
//!
//! Each endpoint keeps two ghost histories: `up`, the messages handed to its
//! parent, and `down`, the fan-out deliveries attempted on its registered
//! children, in order. The state machines of the group and of the element
//! state their guarantees — one terminal notice upward, a broadcast reaching
//! every registered element — over these histories.

use crate::children::ChildrenRef;
use crate::message::{BastionId, BastionMessage, MessageView, fan_out_ok};
use crate::plumbing;
use crate::plumbing::RecvProbe;
use vstd::prelude::*;

verus! {

/// The typed parent link of an endpoint: the only upward channel.
pub enum Parent {
    /// No parent: upward notices are recorded but reach nobody.
    Root,
    /// The endpoint belongs to a supervisor.
    Supervisor(SupervisorRef),
    /// The endpoint belongs to a children group.
    Children(ChildrenRef),
}

/// Mathematical shape of a parent link: the tag and the parent's identifier.
#[verifier::ext_equal]
pub enum ParentView {
    Root,
    Supervisor(u64),
    Children(u64),
}

impl View for Parent {
    type V = ParentView;

    open spec fn view(&self) -> ParentView {
        match self {
            Parent::Root => ParentView::Root,
            Parent::Supervisor(r) => ParentView::Supervisor(r@),
            Parent::Children(r) => ParentView::Children(r@.id),
        }
    }
}

impl Parent {
    pub fn supervisor(r: SupervisorRef) -> (p: Parent)
        ensures
            p@ == ParentView::Supervisor(r@),
    {
        Parent::Supervisor(r)
    }

    pub fn children(r: ChildrenRef) -> (p: Parent)
        ensures
            p@ == ParentView::Children(r@.id),
    {
        Parent::Children(r)
    }

    /// The supervisor this link points at. Callers only follow this link on
    /// a group endpoint, whose parent is always a supervisor.
    pub fn clone_supervisor(&self) -> (r: SupervisorRef)
        requires
            self@ is Supervisor,
        ensures
            self@ == ParentView::Supervisor(r@),
    {
        match self {
            Parent::Supervisor(r) => r.clone_ref(),
            _ => unreached(),
        }
    }
}

/// Addressing handle of a supervisor: its identifier and a producer endpoint
/// of its inbox. Not ownership.
pub struct SupervisorRef {
    id: BastionId,
    sender: futures::channel::mpsc::UnboundedSender<BastionMessage>,
}

impl View for SupervisorRef {
    type V = u64;

    closed spec fn view(&self) -> u64 {
        self.id@
    }
}

impl SupervisorRef {
    pub fn clone_ref(&self) -> (r: SupervisorRef)
        ensures
            r@ == self@,
    {
        SupervisorRef { id: self.id, sender: plumbing::clone_sender(&self.sender) }
    }

    pub(crate) fn send(&self, msg: BastionMessage) -> Result<(), BastionMessage> {
        plumbing::channel_send(&self.sender, msg)
    }
}

/// One attempted fan-out delivery: which registered child, which message.
#[verifier::ext_equal]
pub struct Fan {
    pub target: u64,
    pub msg: MessageView,
}

/// The fan-out deliveries of one message to every endpoint of a registry,
/// in registry order.
pub open spec fn fan_seq(registry: Seq<u64>, m: MessageView) -> Seq<Fan> {
    registry.map(|i: int, t: u64| Fan { target: t, msg: m })
}

/// The delivery of one message to the first endpoint of a registry alone —
/// none when the registry is empty.
pub open spec fn first_fan(registry: Seq<u64>, m: MessageView) -> Seq<Fan> {
    if registry.len() > 0 {
        seq![Fan { target: registry[0], msg: m }]
    } else {
        Seq::empty()
    }
}

/// Mathematical shape of a broadcast endpoint. The inbox itself is shared
/// mutable state and has no mathematical content here; what an endpoint
/// guarantees is said over its identifier, its parent link, its registry
/// and its two send histories.
#[verifier::ext_equal]
pub struct BroadcastView {
    pub id: u64,
    pub parent: ParentView,
    /// Identifiers of the registered child endpoints, in registration order.
    pub registry: Seq<u64>,
    /// Messages handed to the parent, in order.
    pub up: Seq<MessageView>,
    /// Fan-out deliveries attempted on registered children, in order.
    pub down: Seq<Fan>,
}

/// A broadcast endpoint: inbox, downward registry, upward parent link.
///
/// Fan-out is best-effort per recipient: a closed recipient is silently
/// dropped and never blocks the others.
pub struct Broadcast {
    id: BastionId,
    sender: futures::channel::mpsc::UnboundedSender<BastionMessage>,
    recver: futures::channel::mpsc::UnboundedReceiver<BastionMessage>,
    parent: Parent,
    registry: Vec<(BastionId, futures::channel::mpsc::UnboundedSender<BastionMessage>)>,
    up: Ghost<Seq<MessageView>>,
    down: Ghost<Seq<Fan>>,
}

impl View for Broadcast {
    type V = BroadcastView;

    closed spec fn view(&self) -> BroadcastView {
        BroadcastView {
            id: self.id@,
            parent: self.parent@,
            registry: self.registry@.map(|i: int, e: (BastionId, futures::channel::mpsc::UnboundedSender<BastionMessage>)| e.0@),
            up: self.up@,
            down: self.down@,
        }
    }
}

impl Broadcast {
    pub fn new(id: BastionId, parent: Parent) -> (r: Broadcast)
        ensures
            r@.id == id@,
            r@.parent == parent@,
            r@.registry == Seq::<u64>::empty(),
            r@.up == Seq::<MessageView>::empty(),
            r@.down == Seq::<Fan>::empty(),
    {
        let (sender, recver) = plumbing::unbounded_channel::<BastionMessage>();
        let r = Broadcast {
            id,
            sender,
            recver,
            parent,
            registry: Vec::new(),
            up: Ghost(Seq::empty()),
            down: Ghost(Seq::empty()),
        };
        proof {
            assert(r@.registry =~= Seq::<u64>::empty());
        }
        r
    }

    pub fn id(&self) -> (r: &BastionId)
        ensures
            r@ == self@.id,
    {
        &self.id
    }

    pub fn parent(&self) -> (r: &Parent)
        ensures
            r@ == self@.parent,
    {
        &self.parent
    }

    /// A fresh producer endpoint of this inbox.
    pub(crate) fn sender(&self) -> futures::channel::mpsc::UnboundedSender<BastionMessage> {
        plumbing::clone_sender(&self.sender)
    }

    /// This endpoint seen as a supervisor handle: same identifier, same
    /// inbox. Whoever holds the result can send this endpoint messages.
    pub fn as_supervisor_ref(&self) -> (r: SupervisorRef)
        ensures
            r@ == self@.id,
    {
        SupervisorRef { id: self.id, sender: plumbing::clone_sender(&self.sender) }
    }

    /// Registers a child endpoint: later fan-outs deliver to it too.
    pub(crate) fn register(&mut self, id: BastionId, sender: futures::channel::mpsc::UnboundedSender<BastionMessage>)
        ensures
            final(self)@ == (BroadcastView { registry: old(self)@.registry.push(id@), ..old(self)@ }),
    {
        self.registry.push((id, sender));
        proof {
            assert(self@.registry =~= old(self)@.registry.push(id@));
            assert(self@ =~= (BroadcastView { registry: old(self)@.registry.push(id@), ..old(self)@ }));
        }
    }

    /// Non-blocking probe of this endpoint's inbox. The outcome depends on
    /// what other tasks sent; nothing observable of this endpoint changes.
    pub fn probe(&mut self) -> (p: RecvProbe<BastionMessage>)
        ensures
            final(self)@ == old(self)@,
    {
        plumbing::channel_probe(&mut self.recver)
    }

    /// Fans one message out to every registered child endpoint, in
    /// registration order. Best-effort per recipient: a recipient whose
    /// inbox closed is skipped silently.
    pub(crate) fn send_children(&mut self, msg: &BastionMessage)
        requires
            fan_out_ok(msg@),
        ensures
            final(self)@ == (BroadcastView {
                down: old(self)@.down + fan_seq(old(self)@.registry, msg@),
                ..old(self)@
            }),
    {
        let ghost pre = self@;
        let n = self.registry.len();
        for i in 0..n
            invariant
                n == self.registry.len(),
                self.id == old(self).id,
                self.parent == old(self).parent,
                self.registry == old(self).registry,
                self.up == old(self).up,
                self@.registry == pre.registry,
                self@.parent == pre.parent,
                self@.id == pre.id,
                self@.up == pre.up,
                fan_out_ok(msg@),
                self@.down == pre.down + fan_seq(pre.registry.take(i as int), msg@),
        {
            let copy = msg.duplicate();
            let _ = plumbing::channel_send(&self.registry[i].1, copy);
            proof {
                self.down@ = self.down@.push(Fan { target: self.registry@[i as int].0@, msg: msg@ });
                assert(self@.down =~= pre.down + fan_seq(pre.registry.take(i as int + 1), msg@));
            }
        }
        proof {
            assert(pre.registry.take(n as int) =~= pre.registry);
            assert(self@ =~= (BroadcastView { down: pre.down + fan_seq(pre.registry, msg@), ..pre }));
        }
    }

    /// Hands one message to the first registered child endpoint alone,
    /// without copying it; with no registered endpoint the message is
    /// dropped. This carries a message that owns state no copy can share —
    /// an asked payload with its single reply slot.
    pub(crate) fn send_first_child(&mut self, msg: BastionMessage)
        ensures
            final(self)@ == (BroadcastView {
                down: old(self)@.down + first_fan(old(self)@.registry, msg@),
                ..old(self)@
            }),
    {
        let ghost m = msg@;
        if self.registry.len() > 0 {
            let _ = plumbing::channel_send(&self.registry[0].1, msg);
            proof {
                self.down@ = self.down@.push(Fan { target: self.registry@[0].0@, msg: m });
                assert(old(self)@.down + first_fan(old(self)@.registry, m)
                    =~= old(self)@.down.push(Fan { target: old(self)@.registry[0], msg: m }));
                assert(self@ =~= (BroadcastView {
                    down: old(self)@.down + first_fan(old(self)@.registry, m),
                    ..old(self)@
                }));
            }
        } else {
            proof {
                assert(old(self)@.down + first_fan(old(self)@.registry, m) =~= old(self)@.down);
                assert(self@ =~= (BroadcastView {
                    down: old(self)@.down + first_fan(old(self)@.registry, m),
                    ..old(self)@
                }));
            }
        }
    }

    /// Fans `Stop` out to every registered child endpoint.
    pub(crate) fn stop_children(&mut self)
        ensures
            final(self)@ == (BroadcastView {
                down: old(self)@.down + fan_seq(old(self)@.registry, MessageView::Stop),
                ..old(self)@
            }),
    {
        let msg = BastionMessage::stop();
        self.send_children(&msg);
    }

    /// Fans `Kill` out to every registered child endpoint.
    pub(crate) fn kill_children(&mut self)
        ensures
            final(self)@ == (BroadcastView {
                down: old(self)@.down + fan_seq(old(self)@.registry, MessageView::Kill),
                ..old(self)@
            }),
    {
        let msg = BastionMessage::kill();
        self.send_children(&msg);
    }

    /// Hands `Stopped` with this endpoint's identifier to the parent.
    pub(crate) fn stopped(&mut self)
        ensures
            final(self)@ == (BroadcastView {
                up: old(self)@.up.push(MessageView::Stopped(old(self)@.id)),
                ..old(self)@
            }),
    {
        let msg = BastionMessage::stopped(self.id);
        self.send_parent(msg);
    }

    /// Hands `Faulted` with this endpoint's identifier to the parent.
    pub(crate) fn faulted(&mut self)
        ensures
            final(self)@ == (BroadcastView {
                up: old(self)@.up.push(MessageView::Faulted(old(self)@.id)),
                ..old(self)@
            }),
    {
        let msg = BastionMessage::faulted(self.id);
        self.send_parent(msg);
    }

    /// Hands one message to the parent and records it in the upward history.
    /// Best-effort: a parent whose inbox closed cannot be reached, and a root
    /// endpoint has no parent at all; the notice is recorded either way.
    fn send_parent(&mut self, msg: BastionMessage)
        ensures
            final(self)@ == (BroadcastView { up: old(self)@.up.push(msg@), ..old(self)@ }),
    {
        proof {
            self.up@ = self.up@.push(msg@);
        }
        match &self.parent {
            Parent::Root => {}
            Parent::Supervisor(r) => {
                let _ = r.send(msg);
            }
            Parent::Children(r) => {
                let _ = r.send(msg);
            }
        }
        proof {
            assert(self@ =~= (BroadcastView { up: old(self)@.up.push(msg@), ..old(self)@ }));
        }
    }
}

} // verus!
