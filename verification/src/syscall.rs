//! The blocking system calls, built on the scheduler's wait mechanism.
//!
//! `sleep` blocks the calling process on a wake-time condition. The condition
//! is evaluated by the scheduler once per sweep; on the sweep where the wake
//! time has passed it writes the true elapsed milliseconds into the caller's
//! result register and a zero into its error register, and the process resumes
//! with those values in place.
use vstd::prelude::*;

use crate::process::{Id, State, WaitCond};
use crate::scheduler::Scheduler;
use crate::trap_frame::TrapFrame;

verus! {

/// Blocks the current process for at least `ms` milliseconds.
///
/// Captures `now` (microseconds) as the call's start, computes the absolute
/// wake time, and switches the caller out in
/// `Waiting(SleepUntil { start, end })`; see `Scheduler::switch_rel` for the
/// full effect. The scheduler reports the elapsed time and a zero error code
/// into the caller's trap frame when it wakes.
///
/// Returns the identifier switched to, or `None` when no process was ready in
/// this sweep (the trap layer then idles and rescans) — the caller's own
/// blocking is realized by the sweeps of later timer ticks.
pub fn sleep(sched: &mut Scheduler, ms: u32, tf: &mut TrapFrame, now: u64) -> (r: Option<Id>)
    requires
        old(sched).wf(),
        now + ms as u64 * 1000 <= u64::MAX,
        match old(sched).current {
            Some(id) => old(tf).tpidr == id,
            None => true,
        },
    ensures
        final(sched).wf(),
        Scheduler::switch_rel(
            *old(sched),
            State::Waiting(WaitCond::SleepUntil { start: now, end: (now + ms as u64 * 1000) as u64 }),
            now,
            *final(sched),
            *old(tf),
            *final(tf),
            r,
        ),
{
    let start_time = now;
    let end_time = start_time + (ms as u64) * 1000;
    sched.switch(State::Waiting(WaitCond::SleepUntil { start: start_time, end: end_time }), tf, now)
}

/// Routes a synchronous system call by number. Number 1 is `sleep`, whose
/// millisecond count arrives in the caller's `x0`; any other number does
/// nothing.
pub fn handle_syscall(sched: &mut Scheduler, num: u16, tf: &mut TrapFrame, now: u64) -> (r: Option<
    Id,
>)
    requires
        old(sched).wf(),
        now + 0xFFFF_FFFFu64 * 1000 <= u64::MAX,
        match old(sched).current {
            Some(id) => old(tf).tpidr == id,
            None => true,
        },
    ensures
        final(sched).wf(),
        num == 1 ==> Scheduler::switch_rel(
            *old(sched),
            State::Waiting(
                WaitCond::SleepUntil {
                    start: now,
                    end: (now + (old(tf).x0 as u32) as u64 * 1000) as u64,
                },
            ),
            now,
            *final(sched),
            *old(tf),
            *final(tf),
            r,
        ),
        num != 1 ==> *final(sched) == *old(sched) && *final(tf) == *old(tf) && r is None,
{
    if num == 1 {
        let ms = tf.x0 as u32;
        sleep(sched, ms, tf, now)
    } else {
        None
    }
}

/// A sleep never undershoots. Once its condition is met, the value it
/// delivers into the result register — the elapsed time since the call, in
/// milliseconds — is at least the requested duration, and the delivered error
/// code is zero. There is no upper bound: wake-up waits for the sweep after
/// the wake time.
pub proof fn lemma_sleep_never_undershoots(start: u64, ms: u32, now: u64, tf: TrapFrame)
    requires
        start + ms as u64 * 1000 <= u64::MAX,
        ({
            let cond = WaitCond::SleepUntil { start, end: (start + ms as u64 * 1000) as u64 };
            cond.met(now)
        }),
    ensures
        ({
            let cond = WaitCond::SleepUntil { start, end: (start + ms as u64 * 1000) as u64 };
            &&& cond.delivered(tf, now).x0 >= ms
            &&& cond.delivered(tf, now).x7 == 0
        }),
{
    let elapsed = now - start;
    assert(elapsed >= ms as u64 * 1000);
    vstd::arithmetic::div_mod::lemma_div_is_ordered(ms as int * 1000, elapsed as int, 1000);
    vstd::arithmetic::div_mod::lemma_div_by_multiple(ms as int, 1000);
    assert(ms as int * 1000 / 1000 == ms as int);
}

} // verus!
