//! The children group: a set of identically configured worker elements under
//! one supervisor, and the reference handles that address the group and its
//! elements from outside.
//!
//! The group buffers everything that arrives before its `Start`, replays the
//! buffer in arrival order at activation, fans user broadcasts out to every
//! launched element, and on any terminal transition drains all elements and
//! hands its parent supervisor exactly one terminal notice. A group never
//! restarts itself: restart policy lives in the supervisor, which calls
//! [`Children::reset`] to repopulate it.

use crate::broadcast::{fan_seq, first_fan, Broadcast, BroadcastView, Parent, ParentView};
use crate::child::Child;
use crate::context::{BastionContext, ContextState};
use crate::message::{
    terminal_notice, views_of_msgs, Answer, BastionId, BastionMessage, IdGen, MessageView, MsgKind,
    MsgView, ProbeV,
};
use crate::plumbing;
use crate::plumbing::RecvProbe;
use vstd::prelude::*;

verus! {

/// Mathematical shape of a [`ChildrenRef`]: the group's identifier and the
/// identifiers of the elements the handle was snapshotted with.
#[verifier::ext_equal]
pub struct ChildrenRefView {
    pub id: u64,
    pub children: Seq<u64>,
}

/// Addressing handle of one element of a children group: its identifier and
/// a producer endpoint of its inbox. Freely duplicable, never ownership; it
/// outlives the element, and sending to a terminated element fails with the
/// unsent payload.
pub struct ChildRef {
    id: BastionId,
    sender: futures::channel::mpsc::UnboundedSender<BastionMessage>,
}

impl View for ChildRef {
    type V = u64;

    closed spec fn view(&self) -> u64 {
        self.id@
    }
}

impl ChildRef {
    pub(crate) fn new(
        id: BastionId,
        sender: futures::channel::mpsc::UnboundedSender<BastionMessage>,
    ) -> (r: ChildRef)
        ensures
            r@ == id@,
    {
        ChildRef { id, sender }
    }

    /// The identifier of the element this handle addresses.
    pub fn id(&self) -> (r: &BastionId)
        ensures
            r@ == self@,
    {
        &self.id
    }

    /// A duplicate handle addressing the same element.
    pub fn clone_ref(&self) -> (r: ChildRef)
        ensures
            r@ == self@,
    {
        ChildRef { id: self.id, sender: plumbing::clone_sender(&self.sender) }
    }

    /// Fire-and-forget send of a user payload to this element. On failure —
    /// the element's inbox has closed — the payload is handed back unchanged.
    pub fn tell(&self, payload: String) -> (r: Result<(), String>)
        ensures
            r matches Err(p) ==> p@ == payload@,
    {
        let msg = BastionMessage::tell(payload);
        match self.send(msg) {
            Ok(()) => Ok(()),
            Err(m) => match m {
                BastionMessage::Message(inner) => match inner {
                    crate::message::Msg::Tell { payload: p } => Err(p),
                    _ => unreached(),
                },
                _ => unreached(),
            },
        }
    }

    /// Sends a user payload to this element and returns the [`Answer`] on
    /// which the element's reply arrives. The answer resolves only if the
    /// element processes the message and answers it. On send failure the
    /// payload is handed back unchanged.
    pub fn ask(&self, payload: String) -> (r: Result<Answer, String>)
        ensures
            r matches Err(p) ==> p@ == payload@,
    {
        let (msg, answer) = BastionMessage::ask(payload);
        match self.send(msg) {
            Ok(()) => Ok(answer),
            Err(m) => match m {
                BastionMessage::Message(inner) => match inner {
                    crate::message::Msg::Ask { payload: p, .. } => Err(p),
                    _ => unreached(),
                },
                _ => unreached(),
            },
        }
    }

    /// Asks this element to stop gracefully. Fails only when the element's
    /// inbox has closed; a failed stop leaves nothing else disturbed.
    pub fn stop(&self) -> Result<(), ()> {
        let msg = BastionMessage::stop();
        match self.send(msg) {
            Ok(()) => Ok(()),
            Err(_) => Err(()),
        }
    }

    /// Asks this element to cancel immediately. Fails only when the
    /// element's inbox has closed.
    pub fn kill(&self) -> Result<(), ()> {
        let msg = BastionMessage::kill();
        match self.send(msg) {
            Ok(()) => Ok(()),
            Err(_) => Err(()),
        }
    }

    /// Hands one runtime message to this element's inbox. The supervisor
    /// layer uses this to deliver lifecycle signals such as `Start`. On
    /// failure the message is handed back.
    pub fn send(&self, msg: BastionMessage) -> (r: Result<(), BastionMessage>)
        ensures
            r matches Err(m) ==> m == msg,
    {
        plumbing::channel_send(&self.sender, msg)
    }
}

/// Addressing handle of a whole children group. Freely duplicable, never
/// ownership; it outlives the group, and sending to a terminated group fails
/// with the unsent payload.
pub struct ChildrenRef {
    id: BastionId,
    sender: futures::channel::mpsc::UnboundedSender<BastionMessage>,
    children: Vec<ChildRef>,
}

impl View for ChildrenRef {
    type V = ChildrenRefView;

    closed spec fn view(&self) -> ChildrenRefView {
        ChildrenRefView {
            id: self.id@,
            children: self.children@.map(|i: int, c: ChildRef| c@),
        }
    }
}

impl ChildrenRef {
    pub(crate) fn new(
        id: BastionId,
        sender: futures::channel::mpsc::UnboundedSender<BastionMessage>,
        children: Vec<ChildRef>,
    ) -> (r: ChildrenRef)
        ensures
            r@.id == id@,
            r@.children == children@.map(|i: int, c: ChildRef| c@),
    {
        ChildrenRef { id, sender, children }
    }

    /// The identifier of the group this handle addresses.
    pub fn id(&self) -> (r: &BastionId)
        ensures
            r@ == self@.id,
    {
        &self.id
    }

    /// The elements the group contained when this handle was made.
    pub fn elems(&self) -> (r: &Vec<ChildRef>)
        ensures
            r@.map(|i: int, c: ChildRef| c@) == self@.children,
    {
        &self.children
    }

    /// A duplicate handle addressing the same group.
    pub fn clone_ref(&self) -> (r: ChildrenRef)
        ensures
            r@ == self@,
    {
        let mut children: Vec<ChildRef> = Vec::new();
        let n = self.children.len();
        for i in 0..n
            invariant
                n == self.children.len(),
                children@.len() == i,
                children@.map(|k: int, c: ChildRef| c@)
                    == self.children@.map(|k: int, c: ChildRef| c@).take(i as int),
        {
            children.push(self.children[i].clone_ref());
            proof {
                assert(children@.map(|k: int, c: ChildRef| c@)
                    =~= self.children@.map(|k: int, c: ChildRef| c@).take(i as int + 1));
            }
        }
        let r = ChildrenRef {
            id: self.id,
            sender: plumbing::clone_sender(&self.sender),
            children,
        };
        proof {
            assert(self.children@.map(|k: int, c: ChildRef| c@).take(n as int)
                =~= self.children@.map(|k: int, c: ChildRef| c@));
            assert(r@ =~= self@);
        }
        r
    }

    /// Sends a user payload to the group, which fans it out to every
    /// launched element. On failure — the group's inbox has closed — the
    /// payload is handed back unchanged.
    pub fn broadcast(&self, payload: String) -> (r: Result<(), String>)
        ensures
            r matches Err(p) ==> p@ == payload@,
    {
        let msg = BastionMessage::broadcast(payload);
        match self.send(msg) {
            Ok(()) => Ok(()),
            Err(m) => match m {
                BastionMessage::Message(inner) => match inner {
                    crate::message::Msg::Broadcast { payload: p } => Err(p),
                    _ => unreached(),
                },
                _ => unreached(),
            },
        }
    }

    /// Asks the group to stop all of its elements gracefully. Fails only
    /// when the group's inbox has closed.
    pub fn stop(&self) -> Result<(), ()> {
        let msg = BastionMessage::stop();
        match self.send(msg) {
            Ok(()) => Ok(()),
            Err(_) => Err(()),
        }
    }

    /// Asks the group to cancel all of its elements immediately. Fails only
    /// when the group's inbox has closed.
    pub fn kill(&self) -> Result<(), ()> {
        let msg = BastionMessage::kill();
        match self.send(msg) {
            Ok(()) => Ok(()),
            Err(_) => Err(()),
        }
    }

    /// Hands one runtime message to this group's inbox. The supervisor
    /// layer uses this to deliver lifecycle signals such as `Start`, and an
    /// element's after-panic hook its `Faulted` notice. On failure the
    /// message is handed back.
    pub fn send(&self, msg: BastionMessage) -> (r: Result<(), BastionMessage>)
        ensures
            r matches Err(m) ==> m == msg,
    {
        plumbing::channel_send(&self.sender, msg)
    }
}

/// The notice an element's post-panic hook hands to its parent group: a
/// panicking user future becomes exactly one `Faulted` with the element's
/// identifier, as if the future had returned failure. The embedding runtime
/// installs this as the element task's after-panic callback and swallows the
/// result: a group that is already gone cannot be notified of anything.
pub fn after_panic_notice(parent: &ChildrenRef, id: BastionId) -> (r: Result<(), BastionMessage>)
    ensures
        r matches Err(m) ==> m@ == MessageView::Faulted(id@),
{
    let msg = BastionMessage::faulted(id);
    parent.send(msg)
}

/// Lifecycle phase of a group. Transitions are one-way: `Inactive` →
/// `Active` → `Finishing` → `Done`, with `Inactive` → `Finishing` when the
/// inbox closes or a buffered lifecycle message ends the group at
/// activation. `Finishing` means every element was told to go and the
/// driver still has to drain (or cancel and drain) their task handles
/// before [`Children::conclude`] sends the one terminal notice up.
#[derive(Clone, Copy, PartialEq, Eq, Structural, Debug)]
pub enum GroupPhase {
    Inactive,
    Active,
    Finishing { faulted: bool, cancel: bool },
    Done { faulted: bool },
}

/// What the driver must do after one step.
#[derive(Clone, Copy, PartialEq, Eq, Structural, Debug)]
pub enum GroupTick {
    /// Keep going: poll every element handle once, yield, probe again.
    Continue,
    /// The group is finishing: cancel the element task handles first when
    /// `cancel` says so, await them all, then call [`Children::conclude`].
    Finish { cancel: bool },
}

/// Mathematical shape of a children group.
#[verifier::ext_equal]
pub struct GroupView {
    pub bcast: BroadcastView,
    /// Identifiers of the launched elements, in launch order.
    pub launched: Seq<u64>,
    pub redundancy: nat,
    /// Messages that arrived before `Start`, in arrival order.
    pub buffer: Seq<MessageView>,
    pub phase: GroupPhase,
}

/// The identifiers a generator hands out in `n` consecutive draws.
pub open spec fn id_range(start: u64, n: nat) -> Seq<u64> {
    Seq::new(n, |i: int| (start + i) as u64)
}

/// Fan one message out to the whole registry.
pub open spec fn group_fan(g: GroupView, m: MessageView) -> GroupView {
    GroupView {
        bcast: BroadcastView {
            down: g.bcast.down + fan_seq(g.bcast.registry, m),
            ..g.bcast
        },
        ..g
    }
}

/// Hand one message to the first registered element alone.
pub open spec fn group_pass_first(g: GroupView, m: MessageView) -> GroupView {
    GroupView {
        bcast: BroadcastView {
            down: g.bcast.down + first_fan(g.bcast.registry, m),
            ..g.bcast
        },
        ..g
    }
}

/// Begin a terminal transition: every element was told to go, the launched
/// set empties, and the driver still owes the drain and the upward notice.
pub open spec fn group_finishing(g: GroupView, faulted: bool, cancel: bool) -> GroupView {
    GroupView {
        launched: Seq::empty(),
        phase: GroupPhase::Finishing { faulted, cancel },
        ..g
    }
}

/// What an active group does with one inbound message: the new state, and
/// whether the group lives on.
///
/// `Stop` fans `Stop` out and finishes gracefully as `Stopped`; `Kill` fans
/// `Kill` out, cancels, and still finishes as `Stopped`. A user payload is
/// fanned out unchanged to every registered element — except an asked one,
/// whose single one-shot reply slot cannot be copied per recipient: it goes
/// to the first registered element alone, and is dropped when no element is
/// left. A `Stopped` notice from a launched element stops the rest; a
/// `Faulted` notice kills the rest and escalates as `Faulted`; a notice with
/// an unknown identifier is ignored. `Start` on an active group is ignored.
/// `Deploy`, `Prune` and `SuperviseWith` are protocol errors: the group
/// kills its elements and finishes as `Faulted`.
pub open spec fn group_handle_tr(g: GroupView, m: MessageView) -> (GroupView, bool) {
    match m {
        MessageView::Start => (g, true),
        MessageView::Stop => (group_finishing(group_fan(g, MessageView::Stop), false, false), false),
        MessageView::Kill => (group_finishing(group_fan(g, MessageView::Kill), false, true), false),
        MessageView::Payload(p) => if p.kind == MsgKind::Ask {
            (group_pass_first(g, m), true)
        } else {
            (group_fan(g, m), true)
        },
        MessageView::Stopped(id) => if g.launched.contains(id) {
            (group_finishing(group_fan(g, MessageView::Stop), false, false), false)
        } else {
            (g, true)
        },
        MessageView::Faulted(id) => if g.launched.contains(id) {
            (group_finishing(group_fan(g, MessageView::Kill), true, true), false)
        } else {
            (g, true)
        },
        _ => (group_finishing(group_fan(g, MessageView::Kill), true, true), false),
    }
}

/// Replay of the pre-start buffer, front first: each message goes through
/// [`group_handle_tr`] until one of them finishes the group; whatever is
/// left of the buffer is then dropped.
pub open spec fn group_replay_tr(g: GroupView, msgs: Seq<MessageView>) -> (GroupView, bool)
    decreases msgs.len(),
{
    if msgs.len() == 0 {
        (g, true)
    } else {
        let (g1, cont) = group_handle_tr(g, msgs[0]);
        if cont {
            group_replay_tr(g1, msgs.skip(1))
        } else {
            (g1, false)
        }
    }
}

/// Activation on `Start`: the phase flips, `Start` is fanned out to every
/// element, and the buffer empties into the replay.
pub open spec fn group_activate(g: GroupView) -> GroupView {
    GroupView {
        bcast: BroadcastView {
            down: g.bcast.down + fan_seq(g.bcast.registry, MessageView::Start),
            ..g.bcast
        },
        phase: GroupPhase::Active,
        buffer: Seq::empty(),
        ..g
    }
}

/// The driver order that matches a continuation flag.
pub open spec fn group_tick_of(g: GroupView, cont: bool) -> GroupTick {
    if cont {
        GroupTick::Continue
    } else {
        GroupTick::Finish { cancel: g.phase->Finishing_cancel }
    }
}

/// What a group does with one probed event. This is the whole per-group
/// decision logic; the driver only performs what it says.
pub open spec fn group_step_tr(g: GroupView, p: ProbeV) -> (GroupView, GroupTick) {
    match p {
        ProbeV::Ready(m) => {
            if g.phase is Inactive {
                if m is Start {
                    let (g2, cont) = group_replay_tr(group_activate(g), g.buffer);
                    (g2, group_tick_of(g2, cont))
                } else {
                    (GroupView { buffer: g.buffer.push(m), ..g }, GroupTick::Continue)
                }
            } else {
                let (g2, cont) = group_handle_tr(g, m);
                (g2, group_tick_of(g2, cont))
            }
        }
        ProbeV::Closed => (
            group_finishing(group_fan(g, MessageView::Kill), true, true),
            GroupTick::Finish { cancel: true },
        ),
        ProbeV::Empty => (g, GroupTick::Continue),
    }
}

/// The last transition: after the drain, exactly one terminal notice goes
/// up to the parent supervisor and the group is done.
pub open spec fn group_conclude_tr(g: GroupView) -> GroupView {
    let faulted = g.phase->Finishing_faulted;
    GroupView {
        bcast: BroadcastView {
            up: g.bcast.up.push(terminal_notice(g.bcast.id, faulted)),
            ..g.bcast
        },
        phase: GroupPhase::Done { faulted },
        ..g
    }
}

/// Well-formedness of a group: the pre-start buffer never holds a `Start`;
/// while the group is not finished the registered endpoints are exactly the
/// launched elements and — once active — there are exactly `redundancy` of
/// them; a finishing or done group holds no elements; and the upward history
/// holds exactly one terminal notice — the group's own — when and only when
/// the group is done.
pub open spec fn group_inv(g: GroupView) -> bool {
    &&& forall|i: int| 0 <= i < g.buffer.len() ==> g.buffer[i] != MessageView::Start
    &&& match g.phase {
        GroupPhase::Inactive => g.bcast.registry == g.launched
            && g.bcast.up == Seq::<MessageView>::empty(),
        GroupPhase::Active => g.bcast.registry == g.launched
            && g.launched.len() == g.redundancy
            && g.bcast.up == Seq::<MessageView>::empty(),
        GroupPhase::Finishing { .. } => g.launched.len() == 0
            && g.bcast.up == Seq::<MessageView>::empty(),
        GroupPhase::Done { faulted } => g.launched.len() == 0
            && g.bcast.up == seq![terminal_notice(g.bcast.id, faulted)],
    }
}

/// Everything the driver needs to run one fresh element: the element's
/// state machine and the context its user future receives. The driver calls
/// the group's factory on the context to make the future, installs
/// [`after_panic_notice`] as the task's after-panic hook, and submits the
/// element as a recoverable task.
pub struct ChildSetup {
    pub child: Child,
    pub ctx: BastionContext,
}

/// What [`Children::launch_elems`] promises of each fresh element.
pub open spec fn child_setup_ok(s: ChildSetup, id: u64, group: u64, supervisor: u64) -> bool {
    &&& s.child@.bcast.id == id
    &&& s.child@.bcast.parent == ParentView::Children(group)
    &&& s.child@.bcast.registry == Seq::<u64>::empty()
    &&& s.child@.bcast.up == Seq::<MessageView>::empty()
    &&& s.child@.bcast.down == Seq::<crate::broadcast::Fan>::empty()
    &&& s.child@.buffer == Seq::<MessageView>::empty()
    &&& s.child@.phase == crate::child::ChildPhase::Inactive
    &&& s.child@.delivered == Seq::<MsgView>::empty()
    &&& crate::child::child_inv(s.child@)
    &&& s.ctx@ == (crate::context::ContextView {
        id: id,
        child: id,
        group: group,
        supervisor: supervisor,
    })
}

/// The per-group driver state: inbox endpoint, launched elements, redundancy,
/// pre-start buffer and phase. The factory that makes one user future per
/// element, and the element task handles, live with the asynchronous driver;
/// this machine decides, the driver performs.
pub struct Children {
    bcast: Broadcast,
    launched: Vec<ChildRef>,
    redundancy: usize,
    pre_start_msgs: Vec<BastionMessage>,
    phase: GroupPhase,
}

impl View for Children {
    type V = GroupView;

    closed spec fn view(&self) -> GroupView {
        GroupView {
            bcast: self.bcast@,
            launched: self.launched@.map(|i: int, c: ChildRef| c@),
            redundancy: self.redundancy as nat,
            buffer: views_of_msgs(self.pre_start_msgs@),
            phase: self.phase,
        }
    }
}

impl Children {
    /// A fresh, inactive group on the given endpoint, with redundancy 1 and
    /// no elements yet.
    pub fn new(bcast: Broadcast) -> (r: Children)
        requires
            bcast@.registry == Seq::<u64>::empty(),
            bcast@.up == Seq::<MessageView>::empty(),
        ensures
            r@.bcast == bcast@,
            r@.launched == Seq::<u64>::empty(),
            r@.redundancy == 1,
            r@.buffer == Seq::<MessageView>::empty(),
            r@.phase == GroupPhase::Inactive,
            group_inv(r@),
    {
        let r = Children {
            bcast,
            launched: Vec::new(),
            redundancy: 1,
            pre_start_msgs: Vec::new(),
            phase: GroupPhase::Inactive,
        };
        proof {
            assert(r@.launched =~= Seq::<u64>::empty());
            assert(r@.buffer =~= Seq::<MessageView>::empty());
        }
        r
    }

    /// The identifier of this group.
    pub fn id(&self) -> (r: &BastionId)
        ensures
            r@ == self@.bcast.id,
    {
        self.bcast.id()
    }

    /// The group's own broadcast endpoint.
    pub fn bcast(&self) -> (r: &Broadcast)
        ensures
            r@ == self@.bcast,
    {
        &self.bcast
    }

    /// The group's lifecycle phase.
    pub fn phase(&self) -> (r: GroupPhase)
        ensures
            r == self@.phase,
    {
        self.phase
    }

    /// Sets the number of elements this group will contain, before any are
    /// launched. Zero is legal and means a group with no elements.
    pub fn with_redundancy(self, redundancy: usize) -> (r: Children)
        requires
            group_inv(self@),
            self@.phase is Inactive,
            self@.launched.len() == 0,
        ensures
            r@ == (GroupView { redundancy: redundancy as nat, ..self@ }),
            group_inv(r@),
    {
        Children { redundancy, ..self }
    }

    /// A snapshot handle of this group: its identifier, a producer endpoint
    /// of its inbox, and a handle for each currently launched element.
    pub fn as_ref(&self) -> (r: ChildrenRef)
        ensures
            r@.id == self@.bcast.id,
            r@.children == self@.launched,
    {
        let mut children: Vec<ChildRef> = Vec::new();
        let n = self.launched.len();
        for i in 0..n
            invariant
                n == self.launched.len(),
                children@.len() == i,
                children@.map(|k: int, c: ChildRef| c@)
                    == self.launched@.map(|k: int, c: ChildRef| c@).take(i as int),
        {
            children.push(self.launched[i].clone_ref());
            proof {
                assert(children@.map(|k: int, c: ChildRef| c@)
                    =~= self.launched@.map(|k: int, c: ChildRef| c@).take(i as int + 1));
            }
        }
        proof {
            assert(self.launched@.map(|k: int, c: ChildRef| c@).take(n as int)
                =~= self.launched@.map(|k: int, c: ChildRef| c@));
        }
        ChildrenRef::new(*self.bcast.id(), self.bcast.sender(), children)
    }

    /// Whether a launched element carries this identifier.
    fn launched_contains(&self, id: &BastionId) -> (r: bool)
        ensures
            r == self@.launched.contains(id@),
    {
        let n = self.launched.len();
        for i in 0..n
            invariant
                n == self.launched.len(),
                forall|k: int| 0 <= k < i ==> self@.launched[k] != id@,
        {
            if self.launched[i].id().id == id.id {
                proof {
                    assert(self@.launched[i as int] == id@);
                }
                return true;
            }
        }
        false
    }

    /// Launches `redundancy` fresh elements under this group's endpoint:
    /// each gets a fresh identifier, endpoint, state slot and context, and
    /// is registered for fan-out. The returned setups are what the driver
    /// turns into running tasks. Elements are launched once per endpoint;
    /// a restart goes through [`Children::reset`], which brings a fresh one.
    pub fn launch_elems(&mut self, ids: &mut IdGen) -> (r: Vec<ChildSetup>)
        requires
            group_inv(old(self)@),
            old(self)@.phase is Inactive,
            old(self)@.launched.len() == 0,
            old(self)@.bcast.parent is Supervisor,
            old(ids).next + old(self)@.redundancy <= u64::MAX,
        ensures
            group_inv(final(self)@),
            final(ids).next == old(ids).next + old(self)@.redundancy,
            final(self)@ == (GroupView {
                bcast: BroadcastView {
                    registry: id_range(old(ids).next, old(self)@.redundancy),
                    ..old(self)@.bcast
                },
                launched: id_range(old(ids).next, old(self)@.redundancy),
                ..old(self)@
            }),
            r@.len() == old(self)@.redundancy,
            forall|j: int| 0 <= j < r@.len() ==> child_setup_ok(
                r@[j],
                id_range(old(ids).next, old(self)@.redundancy)[j],
                old(self)@.bcast.id,
                old(self)@.bcast.parent->Supervisor_0,
            ),
    {
        let ghost start = ids.next;
        let ghost gid = self@.bcast.id;
        let ghost sup = self@.bcast.parent->Supervisor_0;
        let mut setups: Vec<ChildSetup> = Vec::new();
        let n = self.redundancy;
        proof {
            assert(id_range(start, 0nat) =~= Seq::<u64>::empty());
        }
        for i in 0..n
            invariant
                n == self.redundancy,
                ids.next == start + i,
                start + n <= u64::MAX,
                self@.redundancy == old(self)@.redundancy,
                self@.phase is Inactive,
                self@.buffer == old(self)@.buffer,
                self@.bcast.id == gid,
                self@.bcast.parent == old(self)@.bcast.parent,
                self@.bcast.parent == ParentView::Supervisor(sup),
                self@.bcast.up == old(self)@.bcast.up,
                self@.bcast.down == old(self)@.bcast.down,
                self@.launched == id_range(start, i as nat),
                self@.bcast.registry == id_range(start, i as nat),
                group_inv(self@),
                setups@.len() == i,
                forall|j: int| 0 <= j < i ==> child_setup_ok(
                    setups@[j],
                    id_range(start, n as nat)[j],
                    gid,
                    sup,
                ),
        {
            let id = ids.fresh();
            let group_ref = self.as_ref();
            let child_bcast = Broadcast::new(id, Parent::children(group_ref));
            let child_ref = ChildRef::new(id, child_bcast.sender());
            let group_ref_for_ctx = self.as_ref();
            let supervisor = self.bcast.parent().clone_supervisor();
            proof {
                assert(supervisor@ == sup);
                assert(child_ref@ == id@);
                assert(group_ref_for_ctx@.id == gid);
            }
            let state = ContextState::new();
            let q = plumbing::new_qutex(state);
            let ctx = BastionContext::new(
                id,
                child_ref,
                group_ref_for_ctx,
                supervisor,
                plumbing::clone_qutex(&q),
            );
            self.bcast.register(id, child_bcast.sender());
            let elem_sender = child_bcast.sender();
            let child = Child::new(child_bcast, q);
            self.launched.push(ChildRef::new(id, elem_sender));
            setups.push(ChildSetup { child, ctx });
            proof {
                let lpre = id_range(start, i as nat);
                assert(id@ == start + i);
                assert(self@.launched =~= lpre.push((start + i) as u64));
                assert(lpre.push((start + i) as u64) =~= id_range(start, (i + 1) as nat));
                assert(self@.bcast.registry =~= id_range(start, (i + 1) as nat));
                assert(id_range(start, n as nat)[i as int] == id@);
                assert(setups@[i as int].child@.bcast.parent == ParentView::Children(gid));
                assert(setups@[i as int].ctx@ == (crate::context::ContextView {
                    id: id@,
                    child: id@,
                    group: gid,
                    supervisor: sup,
                }));
                assert(child_setup_ok(setups@[i as int], id_range(start, n as nat)[i as int], gid, sup));
            }
        }
        proof {
            assert(self@ =~= (GroupView {
                bcast: BroadcastView {
                    registry: id_range(start, old(self)@.redundancy),
                    ..old(self)@.bcast
                },
                launched: id_range(start, old(self)@.redundancy),
                ..old(self)@
            }));
        }
        setups
    }

    /// Kills whatever is launched, swaps in the fresh endpoint the
    /// supervisor made for the restart, and relaunches `redundancy` fresh
    /// elements. The pre-start buffer is kept. The driver must cancel and
    /// drain the old task handles and run the returned setups.
    pub fn reset(&mut self, bcast: Broadcast, ids: &mut IdGen) -> (r: Vec<ChildSetup>)
        requires
            group_inv(old(self)@),
            bcast@.registry == Seq::<u64>::empty(),
            bcast@.up == Seq::<MessageView>::empty(),
            bcast@.parent is Supervisor,
            old(ids).next + old(self)@.redundancy <= u64::MAX,
        ensures
            group_inv(final(self)@),
            final(ids).next == old(ids).next + old(self)@.redundancy,
            final(self)@ == (GroupView {
                bcast: BroadcastView {
                    registry: id_range(old(ids).next, old(self)@.redundancy),
                    ..bcast@
                },
                launched: id_range(old(ids).next, old(self)@.redundancy),
                redundancy: old(self)@.redundancy,
                buffer: old(self)@.buffer,
                phase: GroupPhase::Inactive,
            }),
            r@.len() == old(self)@.redundancy,
            forall|j: int| 0 <= j < r@.len() ==> child_setup_ok(
                r@[j],
                id_range(old(ids).next, old(self)@.redundancy)[j],
                bcast@.id,
                bcast@.parent->Supervisor_0,
            ),
    {
        self.bcast.kill_children();
        self.launched = Vec::new();
        self.bcast = bcast;
        self.phase = GroupPhase::Inactive;
        proof {
            assert(self@.launched =~= Seq::<u64>::empty());
        }
        self.launch_elems(ids)
    }

    /// One inbound message, handled as an active group handles it. `Err`
    /// means the group began finishing and the driver owes the drain and
    /// the conclusion.
    fn handle(&mut self, msg: BastionMessage) -> (r: Result<(), ()>)
        requires
            group_inv(old(self)@),
            old(self)@.phase is Active,
        ensures
            group_inv(final(self)@),
            final(self)@ == group_handle_tr(old(self)@, msg@).0,
            (r is Ok) == group_handle_tr(old(self)@, msg@).1,
    {
        match msg {
            BastionMessage::Start => Ok(()),
            BastionMessage::Stop => {
                self.bcast.stop_children();
                self.launched = Vec::new();
                self.phase = GroupPhase::Finishing { faulted: false, cancel: false };
                proof {
                    assert(self@.launched =~= Seq::<u64>::empty());
                    assert(self@ =~= group_handle_tr(old(self)@, msg@).0);
                }
                Err(())
            }
            BastionMessage::Kill => {
                self.bcast.kill_children();
                self.launched = Vec::new();
                self.phase = GroupPhase::Finishing { faulted: false, cancel: true };
                proof {
                    assert(self@.launched =~= Seq::<u64>::empty());
                    assert(self@ =~= group_handle_tr(old(self)@, msg@).0);
                }
                Err(())
            }
            BastionMessage::Message(m) => {
                match m.kind() {
                    MsgKind::Ask => {
                        let bm = BastionMessage::Message(m);
                        self.bcast.send_first_child(bm);
                        proof {
                            assert(self@ =~= group_handle_tr(old(self)@, msg@).0);
                        }
                        Ok(())
                    }
                    _ => {
                        let bm = BastionMessage::Message(m);
                        self.bcast.send_children(&bm);
                        proof {
                            assert(self@ =~= group_handle_tr(old(self)@, msg@).0);
                        }
                        Ok(())
                    }
                }
            }
            BastionMessage::Stopped { id } => {
                if self.launched_contains(&id) {
                    self.bcast.stop_children();
                    self.launched = Vec::new();
                    self.phase = GroupPhase::Finishing { faulted: false, cancel: false };
                    proof {
                        assert(self@.launched =~= Seq::<u64>::empty());
                        assert(self@ =~= group_handle_tr(old(self)@, msg@).0);
                    }
                    Err(())
                } else {
                    Ok(())
                }
            }
            BastionMessage::Faulted { id } => {
                if self.launched_contains(&id) {
                    self.bcast.kill_children();
                    self.launched = Vec::new();
                    self.phase = GroupPhase::Finishing { faulted: true, cancel: true };
                    proof {
                        assert(self@.launched =~= Seq::<u64>::empty());
                        assert(self@ =~= group_handle_tr(old(self)@, msg@).0);
                    }
                    Err(())
                } else {
                    Ok(())
                }
            }
            _ => {
                self.bcast.kill_children();
                self.launched = Vec::new();
                self.phase = GroupPhase::Finishing { faulted: true, cancel: true };
                proof {
                    assert(self@.launched =~= Seq::<u64>::empty());
                    assert(self@ =~= group_handle_tr(old(self)@, msg@).0);
                }
                Err(())
            }
        }
    }

    /// Activation on `Start`: mark active, fan `Start` out to every element,
    /// then replay the pre-start buffer front first until it is drained or a
    /// buffered message finishes the group.
    fn activate(&mut self) -> (r: GroupTick)
        requires
            group_inv(old(self)@),
            old(self)@.phase is Inactive,
            old(self)@.launched.len() == old(self)@.redundancy,
        ensures
            group_inv(final(self)@),
            final(self)@ == group_replay_tr(group_activate(old(self)@), old(self)@.buffer).0,
            r == group_tick_of(
                group_replay_tr(group_activate(old(self)@), old(self)@.buffer).0,
                group_replay_tr(group_activate(old(self)@), old(self)@.buffer).1,
            ),
    {
        self.phase = GroupPhase::Active;
        let start_msg = BastionMessage::start();
        self.bcast.send_children(&start_msg);
        let mut msgs: Vec<BastionMessage> = Vec::new();
        std::mem::swap(&mut msgs, &mut self.pre_start_msgs);
        let ghost c0 = self@;
        let ghost all = views_of_msgs(msgs@);
        proof {
            assert(c0.buffer =~= Seq::<MessageView>::empty());
            assert(c0 =~= group_activate(old(self)@));
        }
        let ghost target = group_replay_tr(c0, all);
        proof {
            assert(all.skip(0) =~= all);
        }

        let mut done = false;
        let ghost mut k: int = 0;

        while !done && msgs.len() > 0
            invariant
                0 <= k <= all.len(),
                group_inv(self@),
                views_of_msgs(msgs@) == all.skip(k),
                msgs@.len() == all.len() - k,
                !done ==> self@.phase is Active,
                !done ==> target == group_replay_tr(self@, all.skip(k)),
                done ==> target.0 == self@ && target.1 == false,
                done ==> self@.phase is Finishing,
            decreases all.len() - k,
        {
            let ghost msgs_pre = msgs@;
            let m = msgs.remove(0);
            proof {
                assert(views_of_msgs(msgs_pre)[0] == msgs_pre[0]@);
                assert(m@ == all.skip(k)[0]);
                assert(all.skip(k)[0] == all[k]);
                assert forall|j: int| 0 <= j < msgs@.len() implies views_of_msgs(msgs@)[j]
                    == all.skip(k + 1)[j] by {
                    assert(msgs@[j] == msgs_pre[j + 1]);
                    assert(views_of_msgs(msgs_pre)[j + 1] == msgs_pre[j + 1]@);
                    assert(all.skip(k)[j + 1] == all[k + 1 + j]);
                    assert(all.skip(k + 1)[j] == all[k + 1 + j]);
                }
                assert(views_of_msgs(msgs@) =~= all.skip(k + 1));
                assert(all.skip(k).skip(1) =~= all.skip(k + 1));
            }
            let r = self.handle(m);
            if r.is_err() {
                done = true;
                proof {
                    assert(self@.phase is Finishing);
                }
            }
            proof {
                k = k + 1;
            }
        }
        proof {
            if !done {
                assert(msgs@.len() == 0);
                assert(all.skip(k) =~= Seq::<MessageView>::empty());
            }
        }
        if done {
            let cancel = match self.phase {
                GroupPhase::Finishing { cancel, .. } => cancel,
                _ => unreached(),
            };
            GroupTick::Finish { cancel }
        } else {
            GroupTick::Continue
        }
    }

    /// One probed event, decided exactly as [`group_step_tr`] says. Callable
    /// on a group that is not yet finishing and whose elements were launched.
    pub fn step(&mut self, probe: RecvProbe<BastionMessage>) -> (r: GroupTick)
        requires
            group_inv(old(self)@),
            old(self)@.phase is Inactive || old(self)@.phase is Active,
            old(self)@.phase is Inactive ==> old(self)@.launched.len() == old(self)@.redundancy,
        ensures
            group_inv(final(self)@),
            final(self)@ == group_step_tr(old(self)@, probe@).0,
            r == group_step_tr(old(self)@, probe@).1,
    {
        match probe {
            RecvProbe::Ready(msg) => {
                let is_start = match &msg {
                    BastionMessage::Start => true,
                    _ => false,
                };
                match self.phase {
                    GroupPhase::Inactive => {
                        if is_start {
                            self.activate()
                        } else {
                            self.pre_start_msgs.push(msg);
                            proof {
                                assert(self@.buffer =~= old(self)@.buffer.push(msg@));
                                assert(self@ =~= group_step_tr(old(self)@, probe@).0);
                            }
                            GroupTick::Continue
                        }
                    }
                    _ => {
                        match self.handle(msg) {
                            Ok(()) => GroupTick::Continue,
                            Err(()) => {
                                proof {
                                    assert(self@.phase is Finishing);
                                }
                                let cancel = match self.phase {
                                    GroupPhase::Finishing { cancel, .. } => cancel,
                                    _ => unreached(),
                                };
                                GroupTick::Finish { cancel }
                            }
                        }
                    }
                }
            }
            RecvProbe::Closed => {
                self.bcast.kill_children();
                self.launched = Vec::new();
                self.phase = GroupPhase::Finishing { faulted: true, cancel: true };
                proof {
                    assert(self@.launched =~= Seq::<u64>::empty());
                    assert(self@ =~= group_step_tr(old(self)@, probe@).0);
                }
                GroupTick::Finish { cancel: true }
            }
            RecvProbe::Empty => GroupTick::Continue,
        }
    }

    /// Non-blocking probe of this group's inbox, without advancing the
    /// machine. What comes out depends on what other tasks sent; the group
    /// itself is left as it was.
    pub fn probe(&mut self) -> (p: RecvProbe<BastionMessage>)
        ensures
            final(self)@ == old(self)@,
    {
        self.bcast.probe()
    }

    /// Probes this group's inbox once and advances the machine on whatever
    /// came: one [`group_step_tr`] step for some probed event.
    pub fn tick(&mut self) -> (r: GroupTick)
        requires
            group_inv(old(self)@),
            old(self)@.phase is Inactive || old(self)@.phase is Active,
            old(self)@.phase is Inactive ==> old(self)@.launched.len() == old(self)@.redundancy,
        ensures
            group_inv(final(self)@),
            exists|p: ProbeV|
                {
                    &&& final(self)@ == #[trigger] group_step_tr(old(self)@, p).0
                    &&& r == group_step_tr(old(self)@, p).1
                },
    {
        let probe = self.bcast.probe();
        let ghost p = probe@;
        let r = self.step(probe);
        proof {
            assert(final(self)@ == group_step_tr(old(self)@, p).0
                && r == group_step_tr(old(self)@, p).1);
        }
        r
    }

    /// The drain is over: exactly one terminal notice goes up to the parent
    /// supervisor and the group is done. The driver calls this once, after
    /// performing the [`GroupTick::Finish`] it was handed.
    pub fn conclude(&mut self)
        requires
            group_inv(old(self)@),
            old(self)@.phase is Finishing,
        ensures
            group_inv(final(self)@),
            final(self)@ == group_conclude_tr(old(self)@),
    {
        let faulted = match self.phase {
            GroupPhase::Finishing { faulted, .. } => faulted,
            _ => unreached(),
        };
        if faulted {
            self.bcast.faulted();
        } else {
            self.bcast.stopped();
        }
        self.phase = GroupPhase::Done { faulted };
        proof {
            assert(self@ =~= group_conclude_tr(old(self)@));
        }
    }
}

/// Law: after activation and before its terminal transition, a group holds
/// exactly `redundancy` launched elements.
pub proof fn lemma_active_group_full(g: GroupView)
    requires
        group_inv(g),
        g.phase is Active,
    ensures
        g.launched.len() == g.redundancy,
{
}

/// Law: a group hands its parent supervisor exactly one terminal notice in
/// its life — none before it is done, exactly its own `Stopped` or `Faulted`
/// once it is done, and nothing else ever goes up from it.
pub proof fn lemma_group_single_terminal_notice(g: GroupView)
    requires
        group_inv(g),
    ensures
        (g.phase is Done) <==> g.bcast.up.len() == 1,
        !(g.phase is Done) ==> g.bcast.up.len() == 0,
        forall|f: bool| g.phase == (GroupPhase::Done { faulted: f }) ==> g.bcast.up
            == seq![terminal_notice(g.bcast.id, f)],
{
}

/// Law: a broadcast or told payload handled by an active group is fanned
/// out unchanged to every currently launched element — exactly one delivery
/// per registered element, in registration order — and the group lives on
/// with its elements untouched.
pub proof fn lemma_broadcast_reaches_all(g: GroupView, p: MsgView)
    requires
        group_inv(g),
        g.phase is Active,
        p.kind != MsgKind::Ask,
    ensures
        group_handle_tr(g, MessageView::Payload(p)).1 == true,
        group_handle_tr(g, MessageView::Payload(p)).0.bcast.down
            == g.bcast.down + fan_seq(g.launched, MessageView::Payload(p)),
        forall|id: u64| g.launched.contains(id)
            ==> #[trigger] group_handle_tr(g, MessageView::Payload(p)).0.bcast.down.contains(
                crate::broadcast::Fan { target: id, msg: MessageView::Payload(p) },
            ),
{
    let m = MessageView::Payload(p);
    let d2 = group_handle_tr(g, m).0.bcast.down;
    assert(g.bcast.registry == g.launched);
    assert(d2 == g.bcast.down + fan_seq(g.launched, m));
    assert forall|id: u64| g.launched.contains(id) implies #[trigger] group_handle_tr(g, m)
        .0
        .bcast
        .down
        .contains(crate::broadcast::Fan { target: id, msg: m }) by {
        let i = choose|i: int| 0 <= i < g.launched.len() && g.launched[i] == id;
        assert(fan_seq(g.launched, m)[i] == (crate::broadcast::Fan { target: id, msg: m }));
        assert(d2[g.bcast.down.len() + i] == (crate::broadcast::Fan { target: id, msg: m }));
    }
}

} // verus!
