//! Drives the group and element state machines over real channels, one
//! probed event at a time, without an executor: every decision the machines
//! make is observable through the reference handles and the supervisor's
//! inbox.

use bastion::broadcast::{Broadcast, Parent};
use bastion::child::{ChildControl, ChildTick};
use bastion::children::{ChildSetup, Children, GroupTick};
use bastion::context::ContextState;
use bastion::message::{BastionId, BastionMessage, IdGen, Msg};
use bastion::plumbing::RecvProbe;

struct Rig {
    supervisor: Broadcast,
    group: Children,
    setups: Vec<ChildSetup>,
}

fn rig(redundancy: usize) -> Rig {
    let mut ids = IdGen::new();
    let sup_id = ids.fresh();
    let supervisor = Broadcast::new(sup_id, Parent::Root);
    let group_id = ids.fresh();
    let group_bcast = Broadcast::new(group_id, Parent::supervisor(supervisor.as_supervisor_ref()));
    let mut group = Children::new(group_bcast).with_redundancy(redundancy);
    let setups = group.launch_elems(&mut ids);
    Rig { supervisor, group, setups }
}

fn drain(b: &mut Broadcast) -> Vec<BastionMessage> {
    let mut out = Vec::new();
    loop {
        match b.probe() {
            RecvProbe::Ready(m) => out.push(m),
            _ => return out,
        }
    }
}

fn drain_group(g: &mut Children) -> Vec<BastionMessage> {
    let mut out = Vec::new();
    loop {
        match g.probe() {
            RecvProbe::Ready(m) => out.push(m),
            _ => return out,
        }
    }
}

fn payload_of(m: Msg) -> String {
    m.payload().clone()
}

#[test]
fn group_launches_redundancy_elements() {
    let r = rig(3);
    assert_eq!(r.setups.len(), 3);
    let group_ref = r.group.as_ref();
    assert_eq!(group_ref.elems().len(), 3);
    let mut seen = Vec::new();
    for s in &r.setups {
        assert!(!seen.contains(&s.child.id().id));
        seen.push(s.child.id().id);
    }
}

#[test]
fn idgen_never_repeats() {
    let mut ids = IdGen::new();
    let a = ids.fresh();
    let b = ids.fresh();
    let c = ids.fresh();
    assert_ne!(a, b);
    assert_ne!(b, c);
    assert_ne!(a, c);
    assert_eq!(a.id + 1, b.id);
}

#[test]
fn context_state_is_fifo() {
    let mut state = ContextState::new();
    state.push(Msg::Tell { payload: String::from("a") });
    state.push(Msg::Tell { payload: String::from("b") });
    state.push(Msg::Tell { payload: String::from("c") });
    assert_eq!(state.len(), 3);
    assert_eq!(payload_of(state.pop().unwrap()), "a");
    assert_eq!(payload_of(state.pop().unwrap()), "b");
    assert_eq!(payload_of(state.pop().unwrap()), "c");
    assert!(state.pop().is_none());
}

#[test]
fn child_buffers_before_start_and_replays_in_order() {
    let mut r = rig(1);
    let mut child = r.setups.remove(0).child;
    let elem = r.group.as_ref().elems()[0].clone_ref();
    elem.tell(String::from("a")).unwrap();
    elem.tell(String::from("b")).unwrap();

    // before Start: both messages are buffered, nothing is delivered
    let t1 = child.tick();
    assert!(t1.deliveries.is_empty());
    assert!(matches!(t1.control, ChildControl::Continue));
    let t2 = child.tick();
    assert!(t2.deliveries.is_empty());
    assert!(matches!(t2.control, ChildControl::Continue));
    // inbox empty and still inactive: yield, do not poll the user future
    let t3 = child.tick();
    assert!(t3.deliveries.is_empty());
    assert!(matches!(t3.control, ChildControl::Continue));

    // a message arriving after the buffered ones but before Start
    elem.send(BastionMessage::tell(String::from("c"))).unwrap();
    let _ = child.tick();

    elem.send(BastionMessage::start()).unwrap();
    let t: ChildTick = child.tick();
    let got: Vec<String> = t.deliveries.into_iter().map(payload_of).collect();
    assert_eq!(got, vec!["a".to_string(), "b".to_string(), "c".to_string()]);
    assert!(matches!(t.control, ChildControl::Continue));

    // active and inbox empty: now the user future is to be polled
    let t = child.tick();
    assert!(matches!(t.control, ChildControl::PollUser));

    // a post-start message is delivered after all buffered ones
    elem.tell(String::from("d")).unwrap();
    let t = child.tick();
    let got: Vec<String> = t.deliveries.into_iter().map(payload_of).collect();
    assert_eq!(got, vec!["d".to_string()]);
}

#[test]
fn child_stop_emits_one_stopped_notice() {
    let mut r = rig(1);
    let mut child = r.setups.remove(0).child;
    let child_id = *child.id();
    let elem = r.group.as_ref().elems()[0].clone_ref();
    elem.send(BastionMessage::start()).unwrap();
    let _ = child.tick();
    elem.stop().unwrap();
    let t = child.tick();
    assert!(matches!(t.control, ChildControl::Done));
    // exactly one Stopped{child id} reached the group
    let up = drain_group(&mut r.group);
    let mut stopped = 0usize;
    for m in up {
        match m {
            BastionMessage::Stopped { id } => {
                assert_eq!(id, child_id);
                stopped += 1;
            }
            _ => panic!("unexpected message at the group"),
        }
    }
    assert_eq!(stopped, 1);
}

#[test]
fn child_ok_completion_emits_stopped() {
    let mut r = rig(1);
    let mut child = r.setups.remove(0).child;
    let child_id = *child.id();
    let elem = r.group.as_ref().elems()[0].clone_ref();
    elem.send(BastionMessage::start()).unwrap();
    let _ = child.tick();
    let t = child.tick();
    assert!(matches!(t.control, ChildControl::PollUser));
    child.completed(true);
    let up = drain_group(&mut r.group);
    assert_eq!(up.len(), 1);
    assert!(matches!(up[0], BastionMessage::Stopped { id } if id == child_id));
}

#[test]
fn child_err_completion_emits_faulted() {
    let mut r = rig(1);
    let mut child = r.setups.remove(0).child;
    let child_id = *child.id();
    let elem = r.group.as_ref().elems()[0].clone_ref();
    elem.send(BastionMessage::start()).unwrap();
    let _ = child.tick();
    child.completed(false);
    let up = drain_group(&mut r.group);
    assert_eq!(up.len(), 1);
    assert!(matches!(up[0], BastionMessage::Faulted { id } if id == child_id));
}

#[test]
fn group_replays_pre_start_broadcasts_to_elements() {
    let mut r = rig(2);
    let group_ref = r.group.as_ref();
    group_ref.broadcast(String::from("a")).unwrap();
    group_ref.broadcast(String::from("b")).unwrap();
    group_ref.broadcast(String::from("c")).unwrap();
    // buffered: three ticks, still nothing at the elements
    for _ in 0..3 {
        assert!(matches!(r.group.tick(), GroupTick::Continue));
    }
    group_ref.send(BastionMessage::start()).unwrap();
    assert!(matches!(r.group.tick(), GroupTick::Continue));

    // each element now sees Start, then a, b, c in order
    for setup in r.setups {
        let mut child = setup.child;
        let mut got: Vec<String> = Vec::new();
        loop {
            let t = child.tick();
            for m in t.deliveries {
                got.push(payload_of(m));
            }
            match t.control {
                ChildControl::Continue => {}
                _ => break,
            }
        }
        assert_eq!(got, vec!["a".to_string(), "b".to_string(), "c".to_string()]);
    }
}

#[test]
fn group_stop_fans_stop_and_reports_stopped_upward() {
    let mut r = rig(2);
    let group_ref = r.group.as_ref();
    group_ref.send(BastionMessage::start()).unwrap();
    assert!(matches!(r.group.tick(), GroupTick::Continue));
    group_ref.stop().unwrap();
    let t = r.group.tick();
    assert!(matches!(t, GroupTick::Finish { cancel: false }));
    r.group.conclude();

    // every element sees Start then Stop and terminates as Stopped
    for setup in r.setups.iter_mut() {
        let mut done = false;
        for _ in 0..10 {
            let t = setup.child.tick();
            if matches!(t.control, ChildControl::Done) {
                done = true;
                break;
            }
        }
        assert!(done);
    }
    // the supervisor sees exactly one terminal notice: Stopped{group id}
    let up = drain(&mut r.supervisor);
    assert_eq!(up.len(), 1);
    assert!(matches!(up[0], BastionMessage::Stopped { id } if id == *r.group.id()));
}

#[test]
fn group_kill_reports_stopped_upward() {
    // the Kill path deliberately reports Stopped, matching the stop/kill
    // asymmetry of the fault path
    let mut r = rig(5);
    let group_ref = r.group.as_ref();
    group_ref.send(BastionMessage::start()).unwrap();
    assert!(matches!(r.group.tick(), GroupTick::Continue));
    group_ref.kill().unwrap();
    let t = r.group.tick();
    assert!(matches!(t, GroupTick::Finish { cancel: true }));
    r.group.conclude();
    let up = drain(&mut r.supervisor);
    assert_eq!(up.len(), 1);
    assert!(matches!(up[0], BastionMessage::Stopped { id } if id == *r.group.id()));
}

#[test]
fn group_escalates_element_fault_and_kills_the_rest() {
    let mut r = rig(3);
    let group_ref = r.group.as_ref();
    group_ref.send(BastionMessage::start()).unwrap();
    assert!(matches!(r.group.tick(), GroupTick::Continue));

    // element 0 faults
    let faulty_id = *r.setups[0].child.id();
    let _ = bastion::children::after_panic_notice(&group_ref, faulty_id);
    let t = r.group.tick();
    assert!(matches!(t, GroupTick::Finish { cancel: true }));
    r.group.conclude();

    // the other elements were sent Kill
    for setup in r.setups.iter_mut().skip(1) {
        let mut saw_done = false;
        for _ in 0..10 {
            let t = setup.child.tick();
            if matches!(t.control, ChildControl::Done) {
                saw_done = true;
                break;
            }
        }
        assert!(saw_done);
    }
    // the supervisor sees exactly one Faulted{group id}
    let up = drain(&mut r.supervisor);
    assert_eq!(up.len(), 1);
    assert!(matches!(up[0], BastionMessage::Faulted { id } if id == *r.group.id()));
}

#[test]
fn group_ignores_unknown_id_notices() {
    let mut r = rig(2);
    let group_ref = r.group.as_ref();
    group_ref.send(BastionMessage::start()).unwrap();
    assert!(matches!(r.group.tick(), GroupTick::Continue));
    group_ref.send(BastionMessage::stopped(BastionId::new(4096))).unwrap();
    assert!(matches!(r.group.tick(), GroupTick::Continue));
    group_ref.send(BastionMessage::faulted(BastionId::new(4097))).unwrap();
    assert!(matches!(r.group.tick(), GroupTick::Continue));
    let up = drain(&mut r.supervisor);
    assert!(up.is_empty());
}

#[test]
fn group_closed_inbox_is_a_fault() {
    let mut r = rig(2);
    // the probe says the inbox closed before Start: the group faults
    let t = r.group.step(RecvProbe::Closed);
    assert!(matches!(t, GroupTick::Finish { cancel: true }));
    r.group.conclude();
    let up = drain(&mut r.supervisor);
    assert_eq!(up.len(), 1);
    assert!(matches!(up[0], BastionMessage::Faulted { id } if id == *r.group.id()));
}

#[test]
fn group_start_while_active_is_ignored() {
    let mut r = rig(1);
    let group_ref = r.group.as_ref();
    group_ref.send(BastionMessage::start()).unwrap();
    assert!(matches!(r.group.tick(), GroupTick::Continue));
    group_ref.send(BastionMessage::start()).unwrap();
    assert!(matches!(r.group.tick(), GroupTick::Continue));
    // the element got exactly one Start: its second probe finds nothing
    let child = &mut r.setups[0].child;
    let t = child.tick();
    assert!(matches!(t.control, ChildControl::Continue));
    let t = child.tick();
    assert!(matches!(t.control, ChildControl::PollUser));
}

#[test]
fn group_fans_tell_to_every_element() {
    // a user payload at the group is fanned out unchanged, whatever its tag
    let mut r = rig(2);
    let group_ref = r.group.as_ref();
    group_ref.send(BastionMessage::start()).unwrap();
    assert!(matches!(r.group.tick(), GroupTick::Continue));
    group_ref.send(BastionMessage::tell(String::from("note"))).unwrap();
    assert!(matches!(r.group.tick(), GroupTick::Continue));
    for setup in r.setups {
        let mut child = setup.child;
        let t = child.tick();
        assert!(matches!(t.control, ChildControl::Continue));
        let t = child.tick();
        let got: Vec<String> = t.deliveries.into_iter().map(payload_of).collect();
        assert_eq!(got, vec!["note".to_string()]);
    }
}

#[test]
fn group_routes_ask_to_one_element() {
    // an asked payload owns its single reply slot, so the group hands it to
    // the first registered element alone
    let mut r = rig(3);
    let group_ref = r.group.as_ref();
    group_ref.send(BastionMessage::start()).unwrap();
    assert!(matches!(r.group.tick(), GroupTick::Continue));
    let (msg, mut answer) = BastionMessage::ask(String::from("anyone home?"));
    group_ref.send(msg).unwrap();
    assert!(matches!(r.group.tick(), GroupTick::Continue));

    let mut setups = r.setups;
    let mut first = setups.remove(0).child;
    let _ = first.tick();
    let t = first.tick();
    let mut deliveries = t.deliveries;
    assert_eq!(deliveries.len(), 1);
    let m = deliveries.remove(0);
    assert_eq!(m.payload(), "anyone home?");
    m.answer(String::from("yes")).unwrap();
    assert_eq!(answer.try_recv(), Ok(Some(String::from("yes"))));

    // the other elements saw only Start
    for s in setups {
        let mut child = s.child;
        let _ = child.tick();
        let t = child.tick();
        assert!(t.deliveries.is_empty());
        assert!(matches!(t.control, ChildControl::PollUser));
    }
}

#[test]
fn protocol_error_faults_the_group() {
    // a supervisor-reserved message at group scope is a protocol error:
    // the group kills its elements and escalates as Faulted
    let mut r = rig(2);
    let group_ref = r.group.as_ref();
    group_ref.send(BastionMessage::start()).unwrap();
    assert!(matches!(r.group.tick(), GroupTick::Continue));
    group_ref.send(BastionMessage::Deploy).unwrap();
    let t = r.group.tick();
    assert!(matches!(t, GroupTick::Finish { cancel: true }));
    r.group.conclude();
    let up = drain(&mut r.supervisor);
    assert_eq!(up.len(), 1);
    assert!(matches!(up[0], BastionMessage::Faulted { id } if id == *r.group.id()));
}

#[test]
fn protocol_error_faults_the_element() {
    // a notice that only a group may receive is a protocol error at element
    // scope: the element ends as Faulted
    let mut r = rig(1);
    let mut child = r.setups.remove(0).child;
    let child_id = *child.id();
    let elem = r.group.as_ref().elems()[0].clone_ref();
    elem.send(BastionMessage::start()).unwrap();
    let _ = child.tick();
    elem.send(BastionMessage::stopped(BastionId::new(4098))).unwrap();
    let t = child.tick();
    assert!(matches!(t.control, ChildControl::Done));
    let up = drain_group(&mut r.group);
    assert_eq!(up.len(), 1);
    assert!(matches!(up[0], BastionMessage::Faulted { id } if id == child_id));
}

#[test]
fn ask_answer_round_trip() {
    let mut r = rig(1);
    let group_ref = r.group.as_ref();
    let elem = group_ref.elems()[0].clone_ref();
    elem.send(BastionMessage::start()).unwrap();
    let _ = r.setups[0].child.tick();

    let mut answer = elem.ask(String::from("question")).unwrap();
    // not answered yet
    assert_eq!(answer.try_recv(), Ok(None));
    let t = r.setups[0].child.tick();
    let mut deliveries = t.deliveries;
    assert_eq!(deliveries.len(), 1);
    let msg = deliveries.remove(0);
    assert_eq!(msg.payload(), "question");
    // answering consumes the message: a reply can be issued at most once
    msg.answer(String::from("reply")).unwrap();
    assert_eq!(answer.try_recv(), Ok(Some(String::from("reply"))));
}

#[test]
fn answer_on_unasked_message_fails() {
    let msg = Msg::Tell { payload: String::from("x") };
    assert_eq!(msg.answer(String::from("r")), Err(String::from("r")));
}

#[test]
fn dropped_question_cancels_the_answer() {
    let mut r = rig(1);
    let elem = r.group.as_ref().elems()[0].clone_ref();
    elem.send(BastionMessage::start()).unwrap();
    let _ = r.setups[0].child.tick();
    let mut answer = elem.ask(String::from("question")).unwrap();
    let t = r.setups[0].child.tick();
    drop(t.deliveries);
    assert_eq!(answer.try_recv(), Err(()));
}

#[test]
fn stop_on_terminated_target_fails_without_touching_others() {
    let mut r = rig(2);
    let group_ref = r.group.as_ref();
    let first = group_ref.elems()[0].clone_ref();
    let second = group_ref.elems()[1].clone_ref();

    // drop the first element entirely: its inbox closes
    let ChildSetup { child, ctx } = r.setups.remove(0);
    drop(child);
    drop(ctx);

    assert_eq!(first.stop(), Err(()));
    assert_eq!(first.kill(), Err(()));
    assert_eq!(first.tell(String::from("gone")), Err(String::from("gone")));
    assert!(matches!(first.ask(String::from("anyone?")), Err(p) if p == "anyone?"));
    // repeating is the same failure, and the second element is untouched
    assert_eq!(first.stop(), Err(()));
    assert_eq!(second.tell(String::from("alive")), Ok(()));
    let t = r.setups[0].child.tick();
    assert!(matches!(t.control, ChildControl::Continue));
}

#[test]
fn redundancy_zero_group_is_legal() {
    // zero elements is legal but useless: the group activates empty and
    // stops cleanly
    let mut r = rig(0);
    assert!(r.setups.is_empty());
    let group_ref = r.group.as_ref();
    assert!(group_ref.elems().is_empty());
    group_ref.send(BastionMessage::start()).unwrap();
    assert!(matches!(r.group.tick(), GroupTick::Continue));
    group_ref.stop().unwrap();
    assert!(matches!(r.group.tick(), GroupTick::Finish { cancel: false }));
    r.group.conclude();
    let up = drain(&mut r.supervisor);
    assert_eq!(up.len(), 1);
    assert!(matches!(up[0], BastionMessage::Stopped { id } if id == *r.group.id()));
}

#[test]
fn reset_relaunches_fresh_elements() {
    let mut ids = IdGen::new();
    let sup = Broadcast::new(ids.fresh(), Parent::Root);
    let sup_ref = sup.as_supervisor_ref();
    let b1 = Broadcast::new(ids.fresh(), Parent::supervisor(sup_ref.clone_ref()));
    let mut group = Children::new(b1).with_redundancy(2);
    let setups1 = group.launch_elems(&mut ids);
    let old_ids: Vec<u64> = setups1.iter().map(|s| s.child.id().id).collect();

    let b2 = Broadcast::new(ids.fresh(), Parent::supervisor(sup_ref));
    let setups2 = group.reset(b2, &mut ids);
    assert_eq!(setups2.len(), 2);
    for s in &setups2 {
        assert!(!old_ids.contains(&s.child.id().id));
    }
    // the old elements were told to go: the Kill sits in their pre-start
    // buffers and ends them at activation
    for s in setups1 {
        let mut child = s.child;
        let t = child.tick();
        assert!(matches!(t.control, ChildControl::Continue));
        s.ctx.current_child().send(BastionMessage::start()).unwrap();
        let mut done = false;
        for _ in 0..10 {
            let t = child.tick();
            if matches!(t.control, ChildControl::Done) {
                done = true;
                break;
            }
        }
        assert!(done);
    }
}
