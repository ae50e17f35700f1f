//! The per-element state machine: one worker of a children group.
//!
//! An element buffers everything that arrives before its `Start`, replays the
//! buffer in arrival order at activation, hands user payloads to its shared
//! state slot, and ends its life with exactly one terminal notice to its
//! parent group: `Stopped` after a stop, a kill or a normal completion of
//! the user future, `Faulted` after a failure return, a closed inbox or a
//! protocol error. The asynchronous driver advances the machine one probed
//! event at a time and performs what the machine cannot: locking the state
//! slot to push the deliveries, and polling the user future.

use crate::broadcast::{Broadcast, BroadcastView};
use crate::context::ContextState;
use crate::message::{
    terminal_notice, views_of_msgs, views_of_opt, views_of_payloads, BastionId, BastionMessage,
    MessageView, Msg, MsgView, ProbeV,
};
use crate::plumbing;
use crate::plumbing::RecvProbe;
use vstd::prelude::*;

verus! {

/// Lifecycle phase of an element. Transitions are one-way:
/// `Inactive` → `Active` → `Done`, and `Inactive` → `Done` when the inbox
/// closes or a buffered lifecycle message ends the element at activation.
#[derive(Clone, Copy, PartialEq, Eq, Structural, Debug)]
pub enum ChildPhase {
    Inactive,
    Active,
    Done { faulted: bool },
}

/// What the driver must do after one step.
#[derive(Clone, Copy, PartialEq, Eq, Structural, Debug)]
pub enum ChildControl {
    /// Yield and probe again.
    Continue,
    /// Poll the user future exactly once, then report through
    /// [`Child::completed`] if it finished.
    PollUser,
    /// The element terminated; its notice is already on its way up.
    Done,
}

/// Outcome of one step: the user payloads to push into the shared state
/// slot, in order, and what to do next.
pub struct ChildTick {
    pub deliveries: Vec<Msg>,
    pub control: ChildControl,
}

/// Mathematical shape of an element.
#[verifier::ext_equal]
pub struct ChildView {
    pub bcast: BroadcastView,
    /// Messages that arrived before `Start`, in arrival order.
    pub buffer: Seq<MessageView>,
    pub phase: ChildPhase,
    /// Every user payload handed out for delivery, in delivery order.
    pub delivered: Seq<MsgView>,
}

/// Terminal transition: the notice goes up, the phase becomes `Done`.
pub open spec fn child_done(c: ChildView, faulted: bool) -> ChildView {
    ChildView {
        bcast: BroadcastView {
            up: c.bcast.up.push(terminal_notice(c.bcast.id, faulted)),
            ..c.bcast
        },
        phase: ChildPhase::Done { faulted },
        ..c
    }
}

/// What an active element does with one inbound message: the new state, the
/// payloads handed out for delivery, and whether the element lives on.
///
/// `Stop` and `Kill` both end the element as `Stopped`: from the element's
/// own point of view only a fault is a fault. A user payload is handed to
/// the state slot. `Start` on an active element is ignored. Everything else
/// — `Deploy`, `Prune`, `SuperviseWith`, and a `Stopped`/`Faulted` notice,
/// which only a group may receive — is a protocol error at element scope and
/// ends the element as `Faulted`.
pub open spec fn child_handle_tr(c: ChildView, m: MessageView) -> (ChildView, Seq<MsgView>, bool) {
    match m {
        MessageView::Start => (c, Seq::empty(), true),
        MessageView::Stop => (child_done(c, false), Seq::empty(), false),
        MessageView::Kill => (child_done(c, false), Seq::empty(), false),
        MessageView::Payload(p) => (
            ChildView { delivered: c.delivered.push(p), ..c },
            seq![p],
            true,
        ),
        _ => (child_done(c, true), Seq::empty(), false),
    }
}

/// Replay of the pre-start buffer, front first: each message goes through
/// [`child_handle_tr`] until one of them ends the element; whatever is left
/// of the buffer is then dropped, as the element is gone.
pub open spec fn child_replay_tr(c: ChildView, msgs: Seq<MessageView>) -> (ChildView, Seq<MsgView>, bool)
    decreases msgs.len(),
{
    if msgs.len() == 0 {
        (c, Seq::empty(), true)
    } else {
        let (c1, d1, cont) = child_handle_tr(c, msgs[0]);
        if cont {
            let (c2, d2, cont2) = child_replay_tr(c1, msgs.skip(1));
            (c2, d1 + d2, cont2)
        } else {
            (c1, d1, false)
        }
    }
}

/// Activation: the phase flips, the buffer empties into the replay.
pub open spec fn child_activate(c: ChildView) -> ChildView {
    ChildView { phase: ChildPhase::Active, buffer: Seq::empty(), ..c }
}

/// What an element does with one probed event. This is the whole per-element
/// decision logic; the driver only performs what it says.
pub open spec fn child_step_tr(c: ChildView, p: ProbeV) -> (ChildView, Seq<MsgView>, ChildControl) {
    match p {
        ProbeV::Ready(m) => {
            if c.phase is Inactive {
                if m is Start {
                    let (c2, d, cont) = child_replay_tr(child_activate(c), c.buffer);
                    (c2, d, if cont { ChildControl::Continue } else { ChildControl::Done })
                } else {
                    (ChildView { buffer: c.buffer.push(m), ..c }, Seq::empty(), ChildControl::Continue)
                }
            } else {
                let (c2, d, cont) = child_handle_tr(c, m);
                (c2, d, if cont { ChildControl::Continue } else { ChildControl::Done })
            }
        }
        ProbeV::Closed => (child_done(c, true), Seq::empty(), ChildControl::Done),
        ProbeV::Empty => {
            if c.phase is Inactive {
                (c, Seq::empty(), ChildControl::Continue)
            } else {
                (c, Seq::empty(), ChildControl::PollUser)
            }
        }
    }
}

/// Well-formedness of an element: the pre-start buffer never holds a `Start`
/// (a `Start` activates instead of being buffered), and the upward history
/// holds exactly one terminal notice — the element's own — when and only
/// when the element is done.
pub open spec fn child_inv(c: ChildView) -> bool {
    &&& forall|i: int| 0 <= i < c.buffer.len() ==> c.buffer[i] != MessageView::Start
    &&& match c.phase {
        ChildPhase::Done { faulted } => c.bcast.up
            == seq![terminal_notice(c.bcast.id, faulted)],
        _ => c.bcast.up == Seq::<MessageView>::empty(),
    }
}

/// The per-element driver state: inbox endpoint, shared state slot, pre-start
/// buffer and phase. The user future itself lives with the asynchronous
/// driver; this machine decides, the driver performs.
pub struct Child {
    bcast: Broadcast,
    state: qutex::Qutex<ContextState>,
    pre_start_msgs: Vec<BastionMessage>,
    phase: ChildPhase,
    delivered: Ghost<Seq<MsgView>>,
}

impl View for Child {
    type V = ChildView;

    closed spec fn view(&self) -> ChildView {
        ChildView {
            bcast: self.bcast@,
            buffer: views_of_msgs(self.pre_start_msgs@),
            phase: self.phase,
            delivered: self.delivered@,
        }
    }
}

impl Child {
    /// A fresh, inactive element on the given endpoint, delivering into the
    /// given state slot.
    pub(crate) fn new(bcast: Broadcast, state: qutex::Qutex<ContextState>) -> (r: Child)
        requires
            bcast@.up == Seq::<MessageView>::empty(),
        ensures
            r@.bcast == bcast@,
            r@.buffer == Seq::<MessageView>::empty(),
            r@.phase == ChildPhase::Inactive,
            r@.delivered == Seq::<MsgView>::empty(),
            child_inv(r@),
    {
        let r = Child {
            bcast,
            state,
            pre_start_msgs: Vec::new(),
            phase: ChildPhase::Inactive,
            delivered: Ghost(Seq::empty()),
        };
        proof {
            assert(r@.buffer =~= Seq::<MessageView>::empty());
        }
        r
    }

    /// The identifier of this element.
    pub fn id(&self) -> (r: &BastionId)
        ensures
            r@ == self@.bcast.id,
    {
        self.bcast.id()
    }

    /// A handle on the shared state slot, for the driver to push deliveries
    /// under the mutex.
    pub fn state_handle(&self) -> qutex::Qutex<ContextState> {
        plumbing::clone_qutex(&self.state)
    }

    /// One inbound message, handled as an active element handles it.
    fn handle(&mut self, msg: BastionMessage) -> (r: (Option<Msg>, bool))
        requires
            child_inv(old(self)@),
            !(old(self)@.phase is Done),
        ensures
            child_inv(final(self)@),
            final(self)@ == child_handle_tr(old(self)@, msg@).0,
            views_of_opt(r.0) == child_handle_tr(old(self)@, msg@).1,
            r.1 == child_handle_tr(old(self)@, msg@).2,
    {
        match msg {
            BastionMessage::Start => (None, true),
            BastionMessage::Stop => {
                self.bcast.stopped();
                self.phase = ChildPhase::Done { faulted: false };
                (None, false)
            }
            BastionMessage::Kill => {
                self.bcast.stopped();
                self.phase = ChildPhase::Done { faulted: false };
                (None, false)
            }
            BastionMessage::Message(m) => {
                proof {
                    self.delivered@ = self.delivered@.push(m@);
                }
                (Some(m), true)
            }
            _ => {
                self.bcast.faulted();
                self.phase = ChildPhase::Done { faulted: true };
                (None, false)
            }
        }
    }

    /// One probed event, decided exactly as [`child_step_tr`] says.
    pub fn step(&mut self, probe: RecvProbe<BastionMessage>) -> (r: ChildTick)
        requires
            child_inv(old(self)@),
            !(old(self)@.phase is Done),
        ensures
            child_inv(final(self)@),
            final(self)@ == child_step_tr(old(self)@, probe@).0,
            views_of_payloads(r.deliveries@) == child_step_tr(old(self)@, probe@).1,
            r.control == child_step_tr(old(self)@, probe@).2,
    {
        match probe {
            RecvProbe::Ready(msg) => {
                let is_start = match &msg {
                    BastionMessage::Start => true,
                    _ => false,
                };
                match self.phase {
                    ChildPhase::Inactive => {
                        if is_start {
                            self.activate()
                        } else {
                            self.pre_start_msgs.push(msg);
                            proof {
                                assert(self@.buffer =~= old(self)@.buffer.push(msg@));
                                assert(self@ =~= child_step_tr(old(self)@, probe@).0);
                                assert(views_of_payloads(Seq::<Msg>::empty())
                                    =~= Seq::<MsgView>::empty());
                            }
                            ChildTick { deliveries: Vec::new(), control: ChildControl::Continue }
                        }
                    }
                    _ => {
                        let (d, cont) = self.handle(msg);
                        let mut deliveries: Vec<Msg> = Vec::new();
                        match d {
                            Some(x) => {
                                deliveries.push(x);
                            }
                            None => {}
                        }
                        proof {
                            assert(views_of_payloads(deliveries@)
                                =~= child_handle_tr(old(self)@, msg@).1);
                        }
                        let control = if cont {
                            ChildControl::Continue
                        } else {
                            ChildControl::Done
                        };
                        ChildTick { deliveries, control }
                    }
                }
            }
            RecvProbe::Closed => {
                self.bcast.faulted();
                self.phase = ChildPhase::Done { faulted: true };
                proof {
                    assert(views_of_payloads(Seq::<Msg>::empty()) =~= Seq::<MsgView>::empty());
                }
                ChildTick { deliveries: Vec::new(), control: ChildControl::Done }
            }
            RecvProbe::Empty => {
                let control = match self.phase {
                    ChildPhase::Inactive => ChildControl::Continue,
                    _ => ChildControl::PollUser,
                };
                proof {
                    assert(views_of_payloads(Seq::<Msg>::empty()) =~= Seq::<MsgView>::empty());
                }
                ChildTick { deliveries: Vec::new(), control }
            }
        }
    }

    /// Activation on `Start`: mark active, then replay the pre-start buffer
    /// front first until it is drained or a buffered message ends the
    /// element.
    fn activate(&mut self) -> (r: ChildTick)
        requires
            child_inv(old(self)@),
            old(self)@.phase is Inactive,
        ensures
            child_inv(final(self)@),
            final(self)@ == child_replay_tr(child_activate(old(self)@), old(self)@.buffer).0,
            views_of_payloads(r.deliveries@)
                == child_replay_tr(child_activate(old(self)@), old(self)@.buffer).1,
            r.control == (if child_replay_tr(child_activate(old(self)@), old(self)@.buffer).2 {
                ChildControl::Continue
            } else {
                ChildControl::Done
            }),
    {
        self.phase = ChildPhase::Active;
        let mut msgs: Vec<BastionMessage> = Vec::new();
        std::mem::swap(&mut msgs, &mut self.pre_start_msgs);
        let ghost c0 = self@;
        let ghost all = views_of_msgs(msgs@);
        proof {
            assert(c0 =~= child_activate(old(self)@));
            assert(c0.buffer =~= Seq::<MessageView>::empty());
        }
        let ghost target = child_replay_tr(c0, all);

        let mut deliveries: Vec<Msg> = Vec::new();
        let mut done = false;
        let ghost mut k: int = 0;

        while !done && msgs.len() > 0
            invariant
                0 <= k <= all.len(),
                child_inv(self@),
                views_of_msgs(msgs@) == all.skip(k),
                msgs@.len() == all.len() - k,
                !done ==> !(self@.phase is Done),
                !done ==> target.0 == child_replay_tr(self@, all.skip(k)).0,
                !done ==> target.1 == views_of_payloads(deliveries@)
                    + child_replay_tr(self@, all.skip(k)).1,
                !done ==> target.2 == child_replay_tr(self@, all.skip(k)).2,
                done ==> target.0 == self@ && target.1 == views_of_payloads(deliveries@)
                    && target.2 == false,
            decreases all.len() - k,
        {
            let ghost pre = self@;
            let ghost msgs_pre = msgs@;
            let m = msgs.remove(0);
            proof {
                assert(views_of_msgs(msgs_pre)[0] == msgs_pre[0]@);
                assert(m@ == all.skip(k)[0]);
                assert(all.skip(k)[0] == all[k]);
                assert forall|j: int| 0 <= j < msgs@.len() implies views_of_msgs(msgs@)[j]
                    == all.skip(k + 1)[j] by {
                    assert(msgs@[j] == msgs_pre[j + 1]);
                    assert(views_of_msgs(msgs_pre)[j + 1] == msgs_pre[j + 1]@);
                    assert(all.skip(k)[j + 1] == all[k + 1 + j]);
                    assert(all.skip(k + 1)[j] == all[k + 1 + j]);
                }
                assert(views_of_msgs(msgs@) =~= all.skip(k + 1));
                assert(all.skip(k).skip(1) =~= all.skip(k + 1));
            }
            let (d, cont) = self.handle(m);
            let ghost dv = views_of_opt(d);
            match d {
                Some(x) => {
                    let ghost pre_del = deliveries@;
                    deliveries.push(x);
                    proof {
                        assert(views_of_payloads(deliveries@)
                            =~= views_of_payloads(pre_del) + dv);
                    }
                }
                None => {
                    proof {
                        assert(views_of_payloads(deliveries@)
                            =~= views_of_payloads(deliveries@) + dv);
                    }
                }
            }
            if !cont {
                done = true;
            }
            proof {
                k = k + 1;
            }
        }
        proof {
            if !done {
                assert(msgs@.len() == 0);
                assert(all.skip(k) =~= Seq::<MessageView>::empty());
                assert(target.1 =~= views_of_payloads(deliveries@));
            }
        }
        let control = if done { ChildControl::Done } else { ChildControl::Continue };
        ChildTick { deliveries, control }
    }

    /// Probes this element's inbox once and advances the machine on whatever
    /// came: one [`child_step_tr`] step for some probed event.
    pub fn tick(&mut self) -> (r: ChildTick)
        requires
            child_inv(old(self)@),
            !(old(self)@.phase is Done),
        ensures
            child_inv(final(self)@),
            exists|p: ProbeV|
                {
                    &&& final(self)@ == #[trigger] child_step_tr(old(self)@, p).0
                    &&& views_of_payloads(r.deliveries@) == child_step_tr(old(self)@, p).1
                    &&& r.control == child_step_tr(old(self)@, p).2
                },
    {
        let probe = self.bcast.probe();
        let ghost p = probe@;
        let r = self.step(probe);
        proof {
            assert(final(self)@ == child_step_tr(old(self)@, p).0
                && views_of_payloads(r.deliveries@) == child_step_tr(old(self)@, p).1
                && r.control == child_step_tr(old(self)@, p).2);
        }
        r
    }

    /// The user future finished: `Ok` ends the element as `Stopped`, `Err`
    /// as `Faulted`. The driver calls this after a poll it was told to make
    /// by [`ChildControl::PollUser`] resolved.
    pub fn completed(&mut self, ok: bool)
        requires
            child_inv(old(self)@),
            old(self)@.phase is Active,
        ensures
            child_inv(final(self)@),
            final(self)@ == child_done(old(self)@, !ok),
    {
        if ok {
            self.bcast.stopped();
        } else {
            self.bcast.faulted();
        }
        self.phase = ChildPhase::Done { faulted: !ok };
    }
}

/// Law: an element hands its parent exactly one terminal notice in its life
/// — none before its terminal transition, exactly its own `Stopped` or
/// `Faulted` once it is done, and nothing else ever goes up from it.
pub proof fn lemma_child_single_terminal_notice(c: ChildView)
    requires
        child_inv(c),
    ensures
        (c.phase is Done) <==> c.bcast.up.len() == 1,
        !(c.phase is Done) ==> c.bcast.up.len() == 0,
        forall|f: bool| c.phase == (ChildPhase::Done { faulted: f }) ==> c.bcast.up
            == seq![terminal_notice(c.bcast.id, f)],
{
}

/// Law: replay appends exactly the payloads it hands out, in order — the
/// element's delivery log after a replay is the old log followed by the
/// replay's deliveries.
pub proof fn lemma_replay_appends_deliveries(c: ChildView, msgs: Seq<MessageView>)
    ensures
        child_replay_tr(c, msgs).0.delivered == c.delivered + child_replay_tr(c, msgs).1,
    decreases msgs.len(),
{
    if msgs.len() == 0 {
        assert(c.delivered + Seq::<MsgView>::empty() =~= c.delivered);
    } else {
        let (c1, d1, cont) = child_handle_tr(c, msgs[0]);
        assert(c1.delivered =~= c.delivered + d1);
        if cont {
            lemma_replay_appends_deliveries(c1, msgs.skip(1));
            assert(child_replay_tr(c, msgs).0.delivered
                =~= c.delivered + child_replay_tr(c, msgs).1);
        }
    }
}

/// Law: every step appends to the element's delivery log exactly what it
/// hands out for delivery, in order — so every payload buffered before
/// `Start` stands in the log before every payload that arrives after it.
pub proof fn lemma_step_appends_deliveries(c: ChildView, p: ProbeV)
    ensures
        child_step_tr(c, p).0.delivered == c.delivered + child_step_tr(c, p).1,
{
    match p {
        ProbeV::Ready(m) => {
            if c.phase is Inactive && m is Start {
                lemma_replay_appends_deliveries(child_activate(c), c.buffer);
            } else {
                assert(child_step_tr(c, p).0.delivered
                    =~= c.delivered + child_step_tr(c, p).1);
            }
        }
        _ => {
            assert(child_step_tr(c, p).0.delivered =~= c.delivered + child_step_tr(c, p).1);
        }
    }
}

/// Law: a buffer of pure user payloads is replayed whole, in arrival order
/// — activation hands out exactly the buffered payloads, the element lives
/// on, and nothing goes up.
pub proof fn lemma_replay_preserves_order(c: ChildView, msgs: Seq<MessageView>)
    requires
        forall|i: int| 0 <= i < msgs.len() ==> msgs[i] is Payload,
    ensures
        child_replay_tr(c, msgs).1 == msgs.map(|i: int, m: MessageView| m->Payload_0),
        child_replay_tr(c, msgs).2 == true,
        child_replay_tr(c, msgs).0.phase == c.phase,
        child_replay_tr(c, msgs).0.bcast == c.bcast,
        child_replay_tr(c, msgs).0.delivered == c.delivered + child_replay_tr(c, msgs).1,
    decreases msgs.len(),
{
    let pv = |i: int, m: MessageView| m->Payload_0;
    if msgs.len() == 0 {
        assert(msgs.map(pv) =~= Seq::<MsgView>::empty());
    } else {
        let (c1, d1, cont) = child_handle_tr(c, msgs[0]);
        lemma_replay_preserves_order(c1, msgs.skip(1));
        assert(child_replay_tr(c, msgs).1 =~= msgs.map(pv));
    }
    lemma_replay_appends_deliveries(c, msgs);
}

} // verus!
