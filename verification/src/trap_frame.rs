//! The register snapshot saved on every exception entry and restored on every
//! exception exit.
//!
//! The field set is a binary contract with the trap entry/exit code: it holds
//! the exception return address, the saved program-status word, the stack
//! pointer, the scheduler-assigned identifier (kept in an otherwise unused
//! thread-id slot), and every general-purpose register.
use vstd::prelude::*;

verus! {

/// One process's complete saved register state.
///
/// `tpidr` is repurposed by the scheduler to carry the process identifier.
/// On a system-call return, `x0` carries the result and `x7` the error code.
#[derive(Clone, Copy, PartialEq, Eq, Structural, Debug)]
pub struct TrapFrame {
    pub elr: u64,
    pub spsr: u64,
    pub sp: u64,
    pub tpidr: u64,
    pub x0: u64,
    pub x1: u64,
    pub x2: u64,
    pub x3: u64,
    pub x4: u64,
    pub x5: u64,
    pub x6: u64,
    pub x7: u64,
    pub x8: u64,
    pub x9: u64,
    pub x10: u64,
    pub x11: u64,
    pub x12: u64,
    pub x13: u64,
    pub x14: u64,
    pub x15: u64,
    pub x16: u64,
    pub x17: u64,
    pub x18: u64,
    pub x19: u64,
    pub x20: u64,
    pub x21: u64,
    pub x22: u64,
    pub x23: u64,
    pub x24: u64,
    pub x25: u64,
    pub x26: u64,
    pub x27: u64,
    pub x28: u64,
    pub x29: u64,
    pub x30: u64,
}

impl TrapFrame {
    /// The all-zero frame a fresh process starts from; the caller then seeds
    /// the entry point, stack pointer and status word before the process runs.
    pub fn zeroed() -> (tf: TrapFrame)
        ensures
            tf == TrapFrame::spec_zeroed(),
    {
        TrapFrame {
            elr: 0,
            spsr: 0,
            sp: 0,
            tpidr: 0,
            x0: 0,
            x1: 0,
            x2: 0,
            x3: 0,
            x4: 0,
            x5: 0,
            x6: 0,
            x7: 0,
            x8: 0,
            x9: 0,
            x10: 0,
            x11: 0,
            x12: 0,
            x13: 0,
            x14: 0,
            x15: 0,
            x16: 0,
            x17: 0,
            x18: 0,
            x19: 0,
            x20: 0,
            x21: 0,
            x22: 0,
            x23: 0,
            x24: 0,
            x25: 0,
            x26: 0,
            x27: 0,
            x28: 0,
            x29: 0,
            x30: 0,
        }
    }

    /// The frame `zeroed` returns.
    pub open spec fn spec_zeroed() -> TrapFrame {
        TrapFrame {
            elr: 0,
            spsr: 0,
            sp: 0,
            tpidr: 0,
            x0: 0,
            x1: 0,
            x2: 0,
            x3: 0,
            x4: 0,
            x5: 0,
            x6: 0,
            x7: 0,
            x8: 0,
            x9: 0,
            x10: 0,
            x11: 0,
            x12: 0,
            x13: 0,
            x14: 0,
            x15: 0,
            x16: 0,
            x17: 0,
            x18: 0,
            x19: 0,
            x20: 0,
            x21: 0,
            x22: 0,
            x23: 0,
            x24: 0,
            x25: 0,
            x26: 0,
            x27: 0,
            x28: 0,
            x29: 0,
            x30: 0,
        }
    }

    /// `self` with a system-call result delivered: `value` in the result
    /// register `x0` and a zero error code in `x7`; every other register kept.
    pub open spec fn with_result(self, value: u64) -> TrapFrame {
        TrapFrame { x0: value, x7: 0, ..self }
    }
}

} // verus!
