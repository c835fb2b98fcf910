use rustos::process::{Process, State, WaitCond};
use rustos::scheduler::Scheduler;
use rustos::syscall::{handle_syscall, sleep};
use rustos::trap_frame::TrapFrame;

fn ready_process() -> Process {
    Process::new().expect("stack allocation")
}

#[test]
fn sleep_scenario_wakes_at_deadline_with_elapsed_ms() {
    // One process calls sleep(50) at T=0; sweeps at T=10ms..40ms leave it
    // waiting; at T=50ms it wakes with the elapsed milliseconds delivered.
    let mut s = Scheduler::new();
    s.add(ready_process()).unwrap();

    let mut tf = TrapFrame::zeroed();
    tf.tpidr = 1;
    // the calling process blocks; nobody else is ready, so the sweep idles
    assert_eq!(sleep(&mut s, 50, &mut tf, 0), None);
    for t_ms in [10u64, 20, 30, 40] {
        assert_eq!(s.find_next(&mut tf, t_ms * 1000), None, "still waiting at {t_ms} ms");
        let p = &s.processes[0];
        assert!(
            matches!(p.state, State::Waiting(WaitCond::SleepUntil { start: 0, end: 50000 })),
            "process should be waiting on the wake time"
        );
    }
    assert_eq!(s.find_next(&mut tf, 50_000), Some(1));
    // the result register holds the elapsed time in milliseconds, >= 50,
    // and the error register holds zero
    assert_eq!(tf.x0, 50);
    assert!(tf.x0 >= 50);
    assert_eq!(tf.x7, 0);
    assert!(matches!(s.processes[0].state, State::Running));
}

#[test]
fn sleep_reports_at_least_the_requested_duration_when_late() {
    let mut s = Scheduler::new();
    s.add(ready_process()).unwrap();
    let mut tf = TrapFrame::zeroed();
    tf.tpidr = 1;
    assert_eq!(sleep(&mut s, 50, &mut tf, 0), None);
    // the sweep that finds the wake time passed may be late; the report
    // covers the true elapsed time
    assert_eq!(s.find_next(&mut tf, 72_900), Some(1));
    assert_eq!(tf.x0, 72);
    assert!(tf.x0 >= 50);
    assert_eq!(tf.x7, 0);
}

#[test]
fn sleeping_process_yields_to_a_ready_one() {
    let mut s = Scheduler::new();
    s.add(ready_process()).unwrap();
    s.add(ready_process()).unwrap();
    let mut tf = TrapFrame::zeroed();
    tf.tpidr = 1;
    // process 1 blocks; the sweep hands the CPU to process 2 at once
    assert_eq!(sleep(&mut s, 30, &mut tf, 5_000), Some(2));
    assert_eq!(tf.tpidr, 2);
    // preemption sweeps keep process 2 running while process 1 waits
    assert_eq!(s.switch(State::Running, &mut tf, 15_000), Some(2));
    // once the wake time passed, process 1 is scanned first and resumes
    assert_eq!(s.switch(State::Running, &mut tf, 35_000), Some(1));
    assert_eq!(tf.x0, 30);
    assert_eq!(tf.x7, 0);
}

#[test]
fn syscall_one_is_sleep_with_ms_from_x0() {
    let mut s = Scheduler::new();
    s.add(ready_process()).unwrap();
    let mut tf = TrapFrame::zeroed();
    tf.tpidr = 1;
    tf.x0 = 25;
    assert_eq!(handle_syscall(&mut s, 1, &mut tf, 0), None);
    assert!(
        matches!(
            s.processes[0].state,
            State::Waiting(WaitCond::SleepUntil { start: 0, end: 25_000 })
        ),
        "syscall 1 should block on a 25 ms wake time"
    );
}

#[test]
fn unknown_syscall_does_nothing() {
    let mut s = Scheduler::new();
    s.add(ready_process()).unwrap();
    let mut tf = TrapFrame::zeroed();
    tf.tpidr = 1;
    tf.x0 = 25;
    assert_eq!(handle_syscall(&mut s, 9, &mut tf, 0), None);
    assert!(matches!(s.processes[0].state, State::Ready));
    assert_eq!(tf.x0, 25);
}
