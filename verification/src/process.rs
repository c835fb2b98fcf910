//! A schedulable execution context: a private stack, a saved trap frame, and a
//! scheduling state.
//!
//! A waiting process carries its wake-up condition as data. Evaluating the
//! condition is the one place a readiness check may mutate the process: on the
//! evaluation that reports ready, the condition delivers its result into the
//! process's trap frame (the system-call return registers) before the process
//! goes back on the CPU. An evaluation that reports not-ready may advance the
//! condition's own bookkeeping but touches nothing else.
use vstd::prelude::*;

use crate::trap_frame::TrapFrame;

verus! {

/// A process identifier: unique for the scheduler's lifetime, never reused.
/// Zero is reserved to mean "no process".
pub type Id = u64;

/// Bytes reserved for each process's stack.
pub const STACK_SIZE: usize = 65536;

/// A process's private stack region. The model keeps the storage itself; the
/// stack pointer a fresh process starts from is the region's top.
pub struct Stack {
    pub data: Vec<u8>,
}

impl Stack {
    /// A zero-filled stack region of `STACK_SIZE` bytes. Allocation failure
    /// would propagate as `None`; in this model allocation always succeeds.
    pub fn new() -> (r: Option<Stack>)
        ensures
            r matches Some(s) && s.wf(),
    {
        Some(Stack { data: vec![0u8; STACK_SIZE] })
    }

    pub open spec fn wf(&self) -> bool {
        self.data@.len() == STACK_SIZE
    }

    /// The offset one past the highest byte of the region: the initial stack
    /// pointer for a process that runs on this stack (16-byte aligned).
    pub fn top(&self) -> (r: u64)
        requires
            self.wf(),
        ensures
            r == STACK_SIZE as u64,
    {
        self.data.len() as u64
    }
}

/// The wake-up condition a waiting process blocks on, evaluated once per
/// scheduler sweep with the current time.
#[derive(Clone, Copy, PartialEq, Eq, Structural, Debug)]
pub enum WaitCond {
    /// Ready once `now >= end`; on wake-up, delivers the elapsed time since
    /// `start`, truncated to milliseconds, as the system-call result. This is
    /// the condition the `sleep` system call blocks on.
    SleepUntil { start: u64, end: u64 },
    /// Not ready for the next `remaining` evaluations, then ready; on wake-up,
    /// delivers `value` as the system-call result. This is the general
    /// "false K times, then true" wait.
    CountDown { remaining: u64, value: u64 },
}

impl WaitCond {
    /// A sleep's wake time never precedes its start time; without this a
    /// wake-up could not compute the elapsed time.
    pub open spec fn wf(self) -> bool {
        match self {
            WaitCond::SleepUntil { start, end } => start <= end,
            WaitCond::CountDown { .. } => true,
        }
    }

    /// Whether an evaluation at time `now` reports ready.
    pub open spec fn met(self, now: u64) -> bool {
        match self {
            WaitCond::SleepUntil { start, end } => now >= end,
            WaitCond::CountDown { remaining, .. } => remaining == 0,
        }
    }

    /// The condition after an evaluation that reported not-ready.
    pub open spec fn stepped(self) -> WaitCond {
        match self {
            WaitCond::SleepUntil { .. } => self,
            WaitCond::CountDown { remaining, value } => WaitCond::CountDown {
                remaining: (remaining - 1) as u64,
                value,
            },
        }
    }

    /// The trap frame after this condition delivers its result at time `now`.
    pub open spec fn delivered(self, tf: TrapFrame, now: u64) -> TrapFrame {
        match self {
            WaitCond::SleepUntil { start, .. } => tf.with_result(((now - start) / 1000) as u64),
            WaitCond::CountDown { value, .. } => tf.with_result(value),
        }
    }
}

/// A process's scheduling state. The three are mutually exclusive; at most one
/// process system-wide is `Running`.
#[derive(Clone, Copy, PartialEq, Eq, Structural, Debug)]
pub enum State {
    /// Eligible to run.
    Ready,
    /// Currently loaded onto the CPU.
    Running,
    /// Blocked until the condition reports ready.
    Waiting(WaitCond),
}

impl State {
    pub open spec fn wf(self) -> bool {
        match self {
            State::Waiting(c) => c.wf(),
            _ => true,
        }
    }
}

/// One schedulable unit of work: a stack, a saved register snapshot, and a
/// scheduling state. The process's identifier lives in the trap frame's
/// `tpidr` slot and is stamped by the scheduler when the process is added.
pub struct Process {
    /// The saved register state, restored verbatim when the process resumes.
    pub trap_frame: TrapFrame,
    /// The process's private stack region.
    pub stack: Stack,
    /// The scheduling state; mutated only by the scheduler.
    pub state: State,
}

impl Process {
    pub open spec fn wf(&self) -> bool {
        &&& self.state.wf()
        &&& self.stack.wf()
    }

    /// The process identifier, read from the trap frame's `tpidr` slot.
    pub open spec fn spec_id(&self) -> Id {
        self.trap_frame.tpidr
    }

    /// A fresh process: zero-filled stack, zeroed trap frame, state `Ready`.
    /// The caller seeds the entry point, stack pointer and status word before
    /// handing the process to the scheduler. `None` would report stack
    /// allocation failure; in this model allocation always succeeds.
    pub fn new() -> (r: Option<Process>)
        ensures
            r matches Some(p) && p.wf() && p.trap_frame == TrapFrame::spec_zeroed() && p.state
                == State::Ready,
    {
        match Stack::new() {
            Some(stack) => Some(
                Process { trap_frame: TrapFrame::zeroed(), stack, state: State::Ready },
            ),
            None => None,
        }
    }

    /// The process identifier, read from the trap frame's `tpidr` slot.
    #[verifier::when_used_as_spec(spec_id)]
    pub fn id(&self) -> (r: Id)
        ensures
            r == self.spec_id(),
    {
        self.trap_frame.tpidr
    }

    /// Whether this process would pass a readiness check at time `now`,
    /// without the check's side effects.
    pub open spec fn ready_at(&self, now: u64) -> bool {
        match self.state {
            State::Ready => true,
            State::Running => false,
            State::Waiting(c) => c.met(now),
        }
    }

    /// The process after one readiness evaluation at time `now`: unchanged if
    /// it was `Ready` or `Running`; a waiting process either has its result
    /// delivered and becomes `Ready`, or stays `Waiting` with the condition
    /// stepped.
    pub open spec fn evaluated(self, now: u64) -> Process {
        match self.state {
            State::Ready => self,
            State::Running => self,
            State::Waiting(c) => if c.met(now) {
                Process {
                    trap_frame: c.delivered(self.trap_frame, now),
                    state: State::Ready,
                    ..self
                }
            } else {
                Process { state: State::Waiting(c.stepped()), ..self }
            },
        }
    }

    /// One readiness check at time `now`: `true` if the process is `Ready`, or
    /// if it is `Waiting` on a condition that is now met — in which case the
    /// condition's result is delivered into the trap frame and the process
    /// becomes `Ready`. Checking readiness is the one-shot completion step of
    /// a blocking system call, so the scheduler evaluates it at most once per
    /// process per sweep.
    pub fn is_ready(&mut self, now: u64) -> (r: bool)
        requires
            old(self).wf(),
        ensures
            r == old(self).ready_at(now),
            *final(self) == old(self).evaluated(now),
            final(self).wf(),
    {
        let state = self.state;
        match state {
            State::Ready => true,
            State::Running => false,
            State::Waiting(c) => match c {
                WaitCond::SleepUntil { start, end } => {
                    if now >= end {
                        self.trap_frame.x0 = (now - start) / 1000;
                        self.trap_frame.x7 = 0;
                        self.state = State::Ready;
                        true
                    } else {
                        false
                    }
                },
                WaitCond::CountDown { remaining, value } => {
                    if remaining == 0 {
                        self.trap_frame.x0 = value;
                        self.trap_frame.x7 = 0;
                        self.state = State::Ready;
                        true
                    } else {
                        self.state = State::Waiting(
                            WaitCond::CountDown { remaining: remaining - 1, value },
                        );
                        false
                    }
                },
            },
        }
    }
}

} // verus!
