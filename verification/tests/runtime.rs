//! End-to-end scenarios: the verified state machines driven by asynchronous
//! tasks on a small cooperative executor, with real user futures — panics
//! included — running under `lightproc` recoverable tasks.

use bastion::child::{Child, ChildControl};
use bastion::children::{after_panic_notice, ChildSetup, Children, ChildrenRef, GroupTick};
use bastion::context::ContextState;
use bastion::broadcast::{Broadcast, Parent};
use bastion::message::{BastionMessage, IdGen, Msg, MsgKind};
use bastion::plumbing::RecvProbe;
use futures::compat::Future01CompatExt;
use futures::executor::block_on;
use futures::task::noop_waker;
use lightproc::lightproc::LightProc;
use lightproc::proc_stack::ProcStack;
use lightproc::proc_state::EmptyProcState;
use lightproc::recoverable_handle::RecoverableHandle;
use qutex::Qutex;
use std::future::Future;
use std::pin::Pin;
use std::sync::mpsc::{channel, Receiver, Sender};
use std::sync::{Arc, Mutex};
use std::task::{Context, Poll};

type UserFuture = Pin<Box<dyn Future<Output = Result<(), ()>> + Send + 'static>>;

struct YieldNow(bool);

impl Future for YieldNow {
    type Output = ();

    fn poll(mut self: Pin<&mut Self>, cx: &mut Context<'_>) -> Poll<()> {
        if self.0 {
            Poll::Ready(())
        } else {
            self.0 = true;
            cx.waker().wake_by_ref();
            Poll::Pending
        }
    }
}

fn yield_now() -> YieldNow {
    YieldNow(false)
}

fn poll_user(fut: &mut UserFuture) -> Poll<Result<(), ()>> {
    let waker = noop_waker();
    let mut cx = Context::from_waker(&waker);
    fut.as_mut().poll(&mut cx)
}

fn poll_handles(handles: &mut [RecoverableHandle<()>]) {
    let waker = noop_waker();
    let mut cx = Context::from_waker(&waker);
    for h in handles.iter_mut() {
        let _ = Pin::new(h).poll(&mut cx);
    }
}

fn schedule_of(tx: &Sender<LightProc>) -> impl Fn(LightProc) + Send + Sync + 'static {
    let tx = Mutex::new(tx.clone());
    move |p| {
        tx.lock().unwrap().send(p).ok();
    }
}

/// The per-element driver loop: probe, deliver under the mutex, poll the
/// user future when told to, yield.
async fn drive_child(mut child: Child, mut fut: UserFuture) {
    let state = child.state_handle();
    loop {
        let tick = child.tick();
        if !tick.deliveries.is_empty() {
            let mut guard = block_on(state.clone().lock().compat()).unwrap();
            for m in tick.deliveries {
                guard.push(m);
            }
        }
        match tick.control {
            ChildControl::Done => return,
            ChildControl::PollUser => {
                match poll_user(&mut fut) {
                    Poll::Ready(Ok(())) => {
                        child.completed(true);
                        return;
                    }
                    Poll::Ready(Err(())) => {
                        child.completed(false);
                        return;
                    }
                    Poll::Pending => {}
                }
            }
            ChildControl::Continue => {}
        }
        yield_now().await;
    }
}

/// The per-group driver loop: probe and step, poll every element handle once
/// per round, and on a terminal transition cancel if told to, drain all
/// handles, then conclude with the one upward notice.
async fn drive_group(mut group: Children, mut handles: Vec<RecoverableHandle<()>>) -> Children {
    loop {
        match group.tick() {
            GroupTick::Continue => {
                poll_handles(&mut handles);
                yield_now().await;
            }
            GroupTick::Finish { cancel } => {
                if cancel {
                    for h in handles.iter() {
                        h.cancel();
                    }
                }
                for h in handles.drain(..) {
                    let _ = h.await;
                }
                group.conclude();
                return group;
            }
        }
    }
}

fn spawn_element(
    setup: ChildSetup,
    fut: UserFuture,
    group_ref: &ChildrenRef,
    tx: &Sender<LightProc>,
) -> RecoverableHandle<()> {
    let id = *setup.child.id();
    let parent = group_ref.clone_ref();
    let stack = ProcStack::default().with_after_panic(move |_: &mut EmptyProcState| {
        let _ = after_panic_notice(&parent, id);
    });
    let (proc_task, handle) = LightProc::recoverable(drive_child(setup.child, fut), schedule_of(tx), stack);
    proc_task.schedule();
    handle
}

struct Scenario {
    supervisor: Broadcast,
    group_ref: ChildrenRef,
    queue: Receiver<LightProc>,
}

/// Builds a group of `redundancy` elements, each running the future that
/// `make_fut` returns for its shared state slot, and schedules everything.
fn scenario<F>(redundancy: usize, mut make_fut: F) -> Scenario
where
    F: FnMut(usize, Qutex<ContextState>) -> UserFuture,
{
    let (tx, rx) = channel::<LightProc>();
    let mut ids = IdGen::new();
    let supervisor = Broadcast::new(ids.fresh(), Parent::Root);
    let group_bcast = Broadcast::new(ids.fresh(), Parent::supervisor(supervisor.as_supervisor_ref()));
    let mut group = Children::new(group_bcast).with_redundancy(redundancy);
    let setups = group.launch_elems(&mut ids);
    let group_ref = group.as_ref();

    let mut handles = Vec::new();
    for (i, setup) in setups.into_iter().enumerate() {
        let fut = make_fut(i, setup.ctx.state_handle());
        handles.push(spawn_element(setup, fut, &group_ref, &tx));
    }
    let (group_task, _group_handle) = LightProc::build(
        drive_group(group, handles),
        schedule_of(&tx),
        ProcStack::default(),
    );
    group_task.schedule();
    Scenario { supervisor, group_ref, queue: rx }
}

/// Runs queued tasks and collects supervisor notices until the runtime goes
/// quiet or the bound is hit.
fn pump(s: &mut Scenario) -> Vec<BastionMessage> {
    let mut notices = Vec::new();
    let mut idle = 0usize;
    for _ in 0..200_000 {
        let ran = match s.queue.try_recv() {
            Ok(p) => {
                p.run();
                true
            }
            Err(_) => false,
        };
        match s.supervisor.probe() {
            RecvProbe::Ready(m) => {
                notices.push(m);
                idle = 0;
            }
            _ => {}
        }
        if ran {
            idle = 0;
        } else {
            idle += 1;
            if idle > 64 {
                break;
            }
        }
    }
    notices
}

fn pop_one(state: &Qutex<ContextState>) -> Option<Msg> {
    let mut guard = block_on(state.clone().lock().compat()).unwrap();
    guard.pop()
}

/// Echo: the element answers every payload back; a broadcast `ping` comes
/// back to the sender-side log, and a stop yields exactly one `Stopped` at
/// the supervisor.
#[test]
fn echo_round_trip_then_stop() {
    let log: Arc<Mutex<Vec<String>>> = Arc::new(Mutex::new(Vec::new()));
    let log_fut = log.clone();
    let mut s = scenario(1, move |_, state| {
        let log = log_fut.clone();
        Box::pin(async move {
            loop {
                match pop_one(&state) {
                    Some(msg) => {
                        if msg.is_broadcast() {
                            log.lock().unwrap().push(msg.payload().clone());
                        } else {
                            let payload = msg.payload().clone();
                            let _ = msg.answer(payload);
                        }
                    }
                    None => yield_now().await,
                }
            }
        })
    });

    s.group_ref.send(BastionMessage::start()).unwrap();
    s.group_ref.broadcast(String::from("ping")).unwrap();
    // let the echo happen, then ask as well
    let _ = pump(&mut s);
    assert_eq!(log.lock().unwrap().clone(), vec![String::from("ping")]);

    let elem = s.group_ref.elems()[0].clone_ref();
    let mut answer = elem.ask(String::from("pong?")).unwrap();
    let _ = pump(&mut s);
    assert_eq!(answer.try_recv(), Ok(Some(String::from("pong?"))));

    s.group_ref.stop().unwrap();
    let notices = pump(&mut s);
    assert_eq!(notices.len(), 1);
    assert!(matches!(notices[0], BastionMessage::Stopped { id } if id == *s.group_ref.id()));
}

/// Pre-start replay: payloads broadcast before `Start` reach each of the two
/// elements' futures whole and in arrival order.
#[test]
fn pre_start_broadcasts_replay_in_order() {
    let logs: Arc<Mutex<Vec<Vec<String>>>> = Arc::new(Mutex::new(vec![Vec::new(), Vec::new()]));
    let logs_fut = logs.clone();
    let mut s = scenario(2, move |i, state| {
        let logs = logs_fut.clone();
        Box::pin(async move {
            let mut seen = 0usize;
            loop {
                match pop_one(&state) {
                    Some(msg) => {
                        logs.lock().unwrap()[i].push(msg.payload().clone());
                        seen += 1;
                        if seen == 3 {
                            return Ok(());
                        }
                    }
                    None => yield_now().await,
                }
            }
        })
    });

    s.group_ref.broadcast(String::from("a")).unwrap();
    s.group_ref.broadcast(String::from("b")).unwrap();
    s.group_ref.broadcast(String::from("c")).unwrap();
    s.group_ref.send(BastionMessage::start()).unwrap();

    let notices = pump(&mut s);
    let expected = vec![String::from("a"), String::from("b"), String::from("c")];
    assert_eq!(logs.lock().unwrap()[0], expected);
    assert_eq!(logs.lock().unwrap()[1], expected);
    // the elements finished normally, so the group reports one Stopped
    assert_eq!(notices.len(), 1);
    assert!(matches!(notices[0], BastionMessage::Stopped { id } if id == *s.group_ref.id()));
}

/// Panic becomes a fault: a user future that panics on `boom` yields exactly
/// one `Faulted` for the group at the supervisor, and the executor survives.
#[test]
fn panicking_future_faults_the_group() {
    let mut s = scenario(1, move |_, state| {
        Box::pin(async move {
            loop {
                match pop_one(&state) {
                    Some(msg) => {
                        if msg.payload() == "boom" {
                            panic!("boom");
                        }
                    }
                    None => yield_now().await,
                }
            }
        })
    });

    s.group_ref.send(BastionMessage::start()).unwrap();
    s.group_ref.broadcast(String::from("boom")).unwrap();
    let notices = pump(&mut s);
    assert_eq!(notices.len(), 1);
    assert!(matches!(notices[0], BastionMessage::Faulted { id } if id == *s.group_ref.id()));
    // the executor is still usable after the panic
    let (tx, rx) = channel::<LightProc>();
    let ran = Arc::new(Mutex::new(false));
    let ran2 = ran.clone();
    let (p, _h) = LightProc::build(
        async move {
            *ran2.lock().unwrap() = true;
        },
        schedule_of(&tx),
        ProcStack::default(),
    );
    p.schedule();
    while let Ok(p) = rx.try_recv() {
        p.run();
    }
    assert!(*ran.lock().unwrap());
}

/// A failure return from one element's future escalates as `Faulted` for the
/// whole group, and every element task ends.
#[test]
fn failure_return_faults_the_group() {
    let mut s = scenario(3, move |i, state| {
        Box::pin(async move {
            loop {
                match pop_one(&state) {
                    Some(_) => {
                        if i == 0 {
                            return Err(());
                        }
                    }
                    None => yield_now().await,
                }
            }
        })
    });

    s.group_ref.send(BastionMessage::start()).unwrap();
    s.group_ref.broadcast(String::from("work")).unwrap();
    let notices = pump(&mut s);
    assert_eq!(notices.len(), 1);
    assert!(matches!(notices[0], BastionMessage::Faulted { id } if id == *s.group_ref.id()));
}

/// Kill semantics: five elements suspended forever are all cancelled at
/// their next suspension point, and the group reports `Stopped` — the
/// deliberate stop/kill asymmetry of the fault path.
#[test]
fn kill_cancels_suspended_elements() {
    let mut s = scenario(5, move |_, state| {
        let _keep = state;
        Box::pin(async move {
            loop {
                yield_now().await;
            }
        })
    });

    s.group_ref.send(BastionMessage::start()).unwrap();
    let _ = pump(&mut s);
    s.group_ref.kill().unwrap();
    let notices = pump(&mut s);
    assert_eq!(notices.len(), 1);
    assert!(matches!(notices[0], BastionMessage::Stopped { id } if id == *s.group_ref.id()));
}

/// A told payload reaches exactly the addressed element.
#[test]
fn tell_reaches_one_element() {
    let logs: Arc<Mutex<Vec<Vec<String>>>> = Arc::new(Mutex::new(vec![Vec::new(), Vec::new()]));
    let logs_fut = logs.clone();
    let mut s = scenario(2, move |i, state| {
        let logs = logs_fut.clone();
        Box::pin(async move {
            loop {
                match pop_one(&state) {
                    Some(msg) => {
                        assert_eq!(msg.kind(), MsgKind::Tell);
                        logs.lock().unwrap()[i].push(msg.payload().clone());
                    }
                    None => yield_now().await,
                }
            }
        })
    });

    s.group_ref.send(BastionMessage::start()).unwrap();
    let first = s.group_ref.elems()[0].clone_ref();
    first.tell(String::from("only you")).unwrap();
    let _ = pump(&mut s);
    assert_eq!(logs.lock().unwrap()[0], vec![String::from("only you")]);
    assert!(logs.lock().unwrap()[1].is_empty());
    s.group_ref.kill().unwrap();
    let _ = pump(&mut s);
}
