use rustos::process::{Process, State, WaitCond};
use rustos::scheduler::{GlobalScheduler, Scheduler, TICK};
use rustos::trap_frame::TrapFrame;

fn ready_process() -> Process {
    Process::new().expect("stack allocation")
}

fn running_count(s: &Scheduler) -> usize {
    s.processes.iter().filter(|p| matches!(p.state, State::Running)).count()
}

#[test]
fn ids_start_at_one_and_increase_by_exactly_one() {
    let mut s = Scheduler::new();
    for expected in 1..=10u64 {
        let id = s.add(ready_process()).expect("id space not exhausted");
        assert_eq!(id, expected);
    }
    assert_eq!(s.last_id, Some(10));
    assert_eq!(s.current, Some(1));
}

#[test]
fn id_stamped_into_trap_frame() {
    let mut s = Scheduler::new();
    let mut p = ready_process();
    p.trap_frame.tpidr = 777;
    let id = s.add(p).unwrap();
    assert_eq!(id, 1);
    assert_eq!(s.processes[0].trap_frame.tpidr, 1);
}

#[test]
fn exhausted_id_space_returns_none_and_adds_nothing() {
    let mut s = Scheduler::new();
    s.add(ready_process()).unwrap();
    // Exhaust the identifier space without 2^64 calls: the scheduler's state
    // after the last possible allocation.
    s.last_id = Some(u64::MAX);
    let before = s.processes.len();
    assert_eq!(s.add(ready_process()), None);
    assert_eq!(s.processes.len(), before);
    assert_eq!(s.last_id, Some(u64::MAX));
    // and it stays sterile
    assert_eq!(s.add(ready_process()), None);
    assert_eq!(s.processes.len(), before);
}

#[test]
fn switch_on_empty_scheduler_returns_none_and_mutates_nothing() {
    let mut s = Scheduler::new();
    let mut tf = TrapFrame::zeroed();
    let r = s.switch(State::Ready, &mut tf, 0);
    assert_eq!(r, None);
    assert_eq!(s.processes.len(), 0);
    assert_eq!(s.current, None);
    assert_eq!(s.last_id, None);
    assert_eq!(tf, TrapFrame::zeroed());
}

#[test]
fn at_most_one_running_through_adds_and_switches() {
    let mut s = Scheduler::new();
    for _ in 0..4 {
        s.add(ready_process()).unwrap();
    }
    assert_eq!(running_count(&s), 0);
    let mut tf = TrapFrame::zeroed();
    tf.tpidr = 1;
    for _ in 0..9 {
        let id = s.switch(State::Running, &mut tf, 0).expect("someone is ready");
        assert_eq!(tf.tpidr, id);
        assert_eq!(running_count(&s), 1);
    }
}

#[test]
fn round_robin_visits_each_process_once_per_cycle() {
    let n: usize = 5;
    let mut s = Scheduler::new();
    for _ in 0..n {
        s.add(ready_process()).unwrap();
    }
    let mut tf = TrapFrame::zeroed();
    tf.tpidr = 1;
    let mut first_cycle = Vec::new();
    for _ in 0..n {
        let id = s.switch(State::Running, &mut tf, 0).expect("all ready");
        first_cycle.push(id);
    }
    // each of the n identifiers appears exactly once
    let mut seen = first_cycle.clone();
    seen.sort();
    seen.dedup();
    assert_eq!(seen.len(), n);
    assert_eq!(seen, vec![1, 2, 3, 4, 5]);
    // and the next cycle repeats the same order
    let mut second_cycle = Vec::new();
    for _ in 0..n {
        let id = s.switch(State::Running, &mut tf, 0).expect("all ready");
        second_cycle.push(id);
    }
    assert_eq!(first_cycle, second_cycle);
}

#[test]
fn waiting_process_skipped_k_times_then_runs_with_result_visible() {
    let k: u64 = 3;
    let mut s = Scheduler::new();
    s.add(ready_process()).unwrap();
    let mut waiter = ready_process();
    waiter.state = State::Waiting(WaitCond::CountDown { remaining: k, value: 99 });
    s.add(waiter).unwrap();

    let mut tf = TrapFrame::zeroed();
    tf.tpidr = 1;
    // Each switch evaluates the waiter once and falls back to process 1.
    for round in 0..k {
        let id = s.switch(State::Running, &mut tf, 0).expect("process 1 is ready");
        assert_eq!(id, 1, "round {round} should fall back to the ready process");
        let waiter = s.processes.iter().find(|p| p.trap_frame.tpidr == 2).unwrap();
        match waiter.state {
            State::Waiting(WaitCond::CountDown { remaining, value }) => {
                assert_eq!(remaining, k - round - 1);
                assert_eq!(value, 99);
            }
            ref other => panic!("waiter should still wait, found {other:?}"),
        }
    }
    // On the (k+1)-th evaluation the waiter reports ready, runs, and its
    // delivered result is visible in the restored frame.
    let id = s.switch(State::Running, &mut tf, 0).expect("waiter is ready now");
    assert_eq!(id, 2);
    assert_eq!(tf.x0, 99);
    assert_eq!(tf.x7, 0);
    assert!(matches!(s.processes[0].state, State::Running));
}

#[test]
fn waiting_process_behind_chosen_is_not_evaluated() {
    // The scan stops at the first ready process: a waiter behind it keeps its
    // count untouched, so a result can never be delivered twice.
    let mut s = Scheduler::new();
    s.add(ready_process()).unwrap();
    s.add(ready_process()).unwrap();
    let mut waiter = ready_process();
    waiter.state = State::Waiting(WaitCond::CountDown { remaining: 5, value: 1 });
    s.add(waiter).unwrap();

    let mut tf = TrapFrame::zeroed();
    tf.tpidr = 1;
    // process 2 is ready and scanned first; the waiter at the back stays
    let id = s.switch(State::Running, &mut tf, 0).unwrap();
    assert_eq!(id, 2);
    let waiter = s.processes.iter().find(|p| p.trap_frame.tpidr == 3).unwrap();
    match waiter.state {
        State::Waiting(WaitCond::CountDown { remaining, .. }) => assert_eq!(remaining, 5),
        ref other => panic!("waiter should be untouched, found {other:?}"),
    }
}

#[test]
fn idle_when_nobody_ready_then_find_next_resumes() {
    let mut s = Scheduler::new();
    s.add(ready_process()).unwrap();

    let mut tf = TrapFrame::zeroed();
    tf.tpidr = 1;
    // the one process blocks itself; the sweep leaves it waiting and idles
    let cond = WaitCond::CountDown { remaining: 2, value: 7 };
    assert_eq!(s.switch(State::Waiting(cond), &mut tf, 0), None);
    assert_eq!(s.current, None);
    // one more unsuccessful sweep, then the condition is met
    assert_eq!(s.find_next(&mut tf, 0), None);
    assert_eq!(s.find_next(&mut tf, 0), Some(1));
    assert_eq!(tf.x0, 7);
    assert_eq!(tf.x7, 0);
    assert_eq!(s.current, Some(1));
}

#[test]
fn global_scheduler_initializes_once_and_forwards() {
    let mut gs = GlobalScheduler::uninitialized();
    assert!(!gs.is_initialized());
    gs.initialize();
    assert!(gs.is_initialized());
    assert_eq!(gs.add(ready_process()), Some(1));
    assert_eq!(gs.add(ready_process()), Some(2));
    let mut tf = TrapFrame::zeroed();
    tf.tpidr = 1;
    let id = gs.switch(State::Running, &mut tf, 0);
    assert_eq!(id, Some(2));
    assert_eq!(TICK, 1000);
}

#[test]
fn process_new_is_ready_with_zeroed_frame() {
    let p = Process::new().unwrap();
    assert!(matches!(p.state, State::Ready));
    assert_eq!(p.trap_frame, TrapFrame::zeroed());
    assert_eq!(p.id(), 0);
    let top = p.stack.top();
    assert!(top > 0);
    assert_eq!(top % 16, 0);
}
