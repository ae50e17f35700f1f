//! Identifiers, user payloads and the closed set of runtime messages that
//! flows between supervisors, children groups and their elements.

use crate::plumbing;
use vstd::prelude::*;

verus! {

/// Process-unique identifier of a broadcast endpoint (a group or an element).
/// Identifiers never alias and are never recycled while the process lives;
/// [`IdGen`] enforces this by handing values out in strictly increasing order.
#[derive(Clone, Copy, PartialEq, Eq, Structural, Debug, Hash)]
pub struct BastionId {
    pub id: u64,
}

impl View for BastionId {
    type V = u64;

    open spec fn view(&self) -> u64 {
        self.id
    }
}

impl BastionId {
    pub fn new(id: u64) -> (r: BastionId)
        ensures
            r@ == id,
    {
        BastionId { id }
    }
}

/// Source of process-unique identifiers: values come out in strictly
/// increasing order, so no two calls ever yield the same identifier.
pub struct IdGen {
    pub next: u64,
}

impl IdGen {
    pub fn new() -> (r: IdGen)
        ensures
            r.next == 0,
    {
        IdGen { next: 0 }
    }

    pub fn fresh(&mut self) -> (r: BastionId)
        requires
            old(self).next < u64::MAX,
        ensures
            r@ == old(self).next,
            final(self).next == old(self).next + 1,
    {
        let id = BastionId { id: self.next };
        self.next = self.next + 1;
        id
    }
}

/// How a user payload was addressed.
#[derive(Clone, Copy, PartialEq, Eq, Structural, Debug)]
pub enum MsgKind {
    /// Fire-and-forget to one element.
    Tell,
    /// Fanned out to every element of a group.
    Broadcast,
    /// Request expecting a one-shot reply.
    Ask,
}

/// Mathematical shape of a user payload: its addressing kind and its text.
#[verifier::ext_equal]
pub struct MsgView {
    pub kind: MsgKind,
    pub payload: Seq<char>,
}

/// One-shot reply endpoint carried inside an asked message.
#[derive(Debug)]
pub struct AnswerSender {
    tx: futures::channel::oneshot::Sender<String>,
}

/// Future side of an `ask`: resolves once the asked element answers.
#[derive(Debug)]
pub struct Answer {
    rx: futures::channel::oneshot::Receiver<String>,
}

impl Answer {
    /// Non-blocking probe: `Ok(Some(reply))` once the element answered,
    /// `Ok(None)` while it did not yet, `Err(())` when the element dropped
    /// the question without answering.
    pub fn try_recv(&mut self) -> Result<Option<String>, ()> {
        plumbing::oneshot_try_recv(&mut self.rx)
    }

    /// Hands out the underlying one-shot receiver, to be awaited by the
    /// embedding runtime.
    pub fn into_receiver(self) -> futures::channel::oneshot::Receiver<String> {
        self.rx
    }
}

/// A user payload in flight: the text plus, for an asked message, the
/// one-shot endpoint on which the element answers.
#[derive(Debug)]
pub enum Msg {
    Tell { payload: String },
    Broadcast { payload: String },
    Ask { payload: String, reply: AnswerSender },
}

impl View for Msg {
    type V = MsgView;

    open spec fn view(&self) -> MsgView {
        match self {
            Msg::Tell { payload } => MsgView { kind: MsgKind::Tell, payload: payload@ },
            Msg::Broadcast { payload } => MsgView { kind: MsgKind::Broadcast, payload: payload@ },
            Msg::Ask { payload, .. } => MsgView { kind: MsgKind::Ask, payload: payload@ },
        }
    }
}

impl Msg {
    /// How this payload was addressed.
    pub fn kind(&self) -> (r: MsgKind)
        ensures
            r == self@.kind,
    {
        match self {
            Msg::Tell { .. } => MsgKind::Tell,
            Msg::Broadcast { .. } => MsgKind::Broadcast,
            Msg::Ask { .. } => MsgKind::Ask,
        }
    }

    pub fn is_broadcast(&self) -> (r: bool)
        ensures
            r == (self@.kind == MsgKind::Broadcast),
    {
        match self {
            Msg::Broadcast { .. } => true,
            _ => false,
        }
    }

    pub fn payload(&self) -> (r: &String)
        ensures
            r@ == self@.payload,
    {
        match self {
            Msg::Tell { payload } => payload,
            Msg::Broadcast { payload } => payload,
            Msg::Ask { payload, .. } => payload,
        }
    }

    /// A fresh copy of a broadcast or told payload, one per fan-out
    /// recipient. An asked message is never copied: it owns its single
    /// one-shot reply endpoint.
    pub fn duplicate(&self) -> (r: Msg)
        requires
            self@.kind != MsgKind::Ask,
        ensures
            r@ == self@,
    {
        match self {
            Msg::Tell { payload } => Msg::Tell { payload: payload.clone() },
            Msg::Broadcast { payload } => Msg::Broadcast { payload: payload.clone() },
            _ => unreached(),
        }
    }

    /// Answers an asked message, consuming it. Returns the reply unchanged
    /// when it cannot be delivered: when this message was not asked, or when
    /// the asker dropped its [`Answer`] already.
    pub fn answer(self, reply: String) -> (r: Result<(), String>)
        ensures
            r matches Err(m) ==> m@ == reply@,
            self@.kind != MsgKind::Ask ==> (r matches Err(m) && m@ == reply@),
    {
        match self {
            Msg::Ask { reply: tx, .. } => tx.send(reply),
            _ => Err(reply),
        }
    }
}

impl AnswerSender {
    /// Sends the reply, consuming the endpoint: a question is answered at
    /// most once. On failure the reply is handed back.
    pub fn send(self, reply: String) -> (r: Result<(), String>)
        ensures
            r matches Err(m) ==> m@ == reply@,
    {
        plumbing::oneshot_send(self.tx, reply)
    }
}

/// Mathematical shape of a runtime message.
#[verifier::ext_equal]
pub enum MessageView {
    Start,
    Stop,
    Kill,
    Deploy,
    Prune,
    SuperviseWith,
    Payload(MsgView),
    Stopped(u64),
    Faulted(u64),
}

/// The closed set of messages a broadcast endpoint can carry.
///
/// `Deploy`, `Prune` and `SuperviseWith` are reserved for supervisor use;
/// a group or an element receiving one treats it as a protocol error. Their
/// payloads belong to the supervisor layer and are not modelled here.
#[derive(Debug)]
pub enum BastionMessage {
    /// Activation signal.
    Start,
    /// Graceful shutdown request.
    Stop,
    /// Immediate cancellation request.
    Kill,
    /// Reserved for supervisor use.
    Deploy,
    /// Reserved for supervisor use.
    Prune,
    /// Reserved for supervisor use.
    SuperviseWith,
    /// User payload.
    Message(Msg),
    /// Upward notice: the child with this id finished normally.
    Stopped { id: BastionId },
    /// Upward notice: the child with this id panicked or returned failure.
    Faulted { id: BastionId },
}

impl View for BastionMessage {
    type V = MessageView;

    open spec fn view(&self) -> MessageView {
        match self {
            BastionMessage::Start => MessageView::Start,
            BastionMessage::Stop => MessageView::Stop,
            BastionMessage::Kill => MessageView::Kill,
            BastionMessage::Deploy => MessageView::Deploy,
            BastionMessage::Prune => MessageView::Prune,
            BastionMessage::SuperviseWith => MessageView::SuperviseWith,
            BastionMessage::Message(m) => MessageView::Payload(m@),
            BastionMessage::Stopped { id } => MessageView::Stopped(id@),
            BastionMessage::Faulted { id } => MessageView::Faulted(id@),
        }
    }
}

/// The one terminal notice an entity sends up: `Stopped` with its own
/// identifier, or `Faulted` after a fault.
pub open spec fn terminal_notice(id: u64, faulted: bool) -> MessageView {
    if faulted {
        MessageView::Faulted(id)
    } else {
        MessageView::Stopped(id)
    }
}

/// Mathematical shape of an inbox probe outcome.
#[verifier::ext_equal]
pub enum ProbeV {
    Ready(MessageView),
    Closed,
    Empty,
}

impl View for plumbing::RecvProbe<BastionMessage> {
    type V = ProbeV;

    open spec fn view(&self) -> ProbeV {
        match self {
            plumbing::RecvProbe::Ready(m) => ProbeV::Ready(m@),
            plumbing::RecvProbe::Closed => ProbeV::Closed,
            plumbing::RecvProbe::Empty => ProbeV::Empty,
        }
    }
}

/// The shapes of a sequence of runtime messages, in order.
pub open spec fn views_of_msgs(s: Seq<BastionMessage>) -> Seq<MessageView> {
    s.map(|i: int, m: BastionMessage| m@)
}

/// The shapes of a sequence of user payloads, in order.
pub open spec fn views_of_payloads(s: Seq<Msg>) -> Seq<MsgView> {
    s.map(|i: int, m: Msg| m@)
}

/// The shapes of at most one user payload.
pub open spec fn views_of_opt(o: Option<Msg>) -> Seq<MsgView> {
    match o {
        Some(m) => seq![m@],
        None => Seq::empty(),
    }
}

/// Whether a message may be copied for fan-out: every lifecycle message may,
/// and of the user payloads all but asks may — an asked message owns its
/// single one-shot reply slot, which cannot be copied per recipient.
pub open spec fn fan_out_ok(m: MessageView) -> bool {
    match m {
        MessageView::Payload(p) => p.kind != MsgKind::Ask,
        _ => true,
    }
}

impl BastionMessage {
    pub fn start() -> (r: BastionMessage)
        ensures
            r@ == MessageView::Start,
    {
        BastionMessage::Start
    }

    pub fn stop() -> (r: BastionMessage)
        ensures
            r@ == MessageView::Stop,
    {
        BastionMessage::Stop
    }

    pub fn kill() -> (r: BastionMessage)
        ensures
            r@ == MessageView::Kill,
    {
        BastionMessage::Kill
    }

    /// A user payload addressed to every element of a group.
    pub fn broadcast(payload: String) -> (r: BastionMessage)
        ensures
            r@ == MessageView::Payload(MsgView { kind: MsgKind::Broadcast, payload: payload@ }),
    {
        BastionMessage::Message(Msg::Broadcast { payload })
    }

    /// A fire-and-forget user payload addressed to one element.
    pub fn tell(payload: String) -> (r: BastionMessage)
        ensures
            r@ == MessageView::Payload(MsgView { kind: MsgKind::Tell, payload: payload@ }),
    {
        BastionMessage::Message(Msg::Tell { payload })
    }

    /// A request expecting a reply: the message to send and the [`Answer`]
    /// on which the reply arrives.
    pub fn ask(payload: String) -> (r: (BastionMessage, Answer))
        ensures
            r.0@ == MessageView::Payload(MsgView { kind: MsgKind::Ask, payload: payload@ }),
    {
        let (tx, rx) = plumbing::oneshot_channel::<String>();
        let msg = BastionMessage::Message(Msg::Ask { payload, reply: AnswerSender { tx } });
        (msg, Answer { rx })
    }

    pub fn stopped(id: BastionId) -> (r: BastionMessage)
        ensures
            r@ == MessageView::Stopped(id@),
    {
        BastionMessage::Stopped { id }
    }

    pub fn faulted(id: BastionId) -> (r: BastionMessage)
        ensures
            r@ == MessageView::Faulted(id@),
    {
        BastionMessage::Faulted { id }
    }

    /// A fresh copy for one fan-out recipient.
    pub fn duplicate(&self) -> (r: BastionMessage)
        requires
            fan_out_ok(self@),
        ensures
            r@ == self@,
    {
        match self {
            BastionMessage::Start => BastionMessage::Start,
            BastionMessage::Stop => BastionMessage::Stop,
            BastionMessage::Kill => BastionMessage::Kill,
            BastionMessage::Deploy => BastionMessage::Deploy,
            BastionMessage::Prune => BastionMessage::Prune,
            BastionMessage::SuperviseWith => BastionMessage::SuperviseWith,
            BastionMessage::Message(m) => BastionMessage::Message(m.duplicate()),
            BastionMessage::Stopped { id } => BastionMessage::Stopped { id: *id },
            BastionMessage::Faulted { id } => BastionMessage::Faulted { id: *id },
        }
    }
}

} // verus!
