//! Exception classification: which kind of trap arrived, from which exception
//! level, and — for synchronous exceptions — the decoded syndrome.
//!
//! The syndrome decoder turns the raw exception syndrome register value into a
//! tagged description: the exception class sits in the top six bits, the
//! instruction-specific syndrome in the low twenty-six.
use vstd::prelude::*;

verus! {

/// The kind of exception, as the vector table distinguishes them.
#[derive(Debug, PartialEq, Eq, Structural, Copy, Clone)]
pub enum Kind {
    Synchronous,
    Irq,
    Fiq,
    SError,
}

/// Where the exception came from: which stack and execution state the
/// interrupted code was using.
#[derive(Debug, PartialEq, Eq, Structural, Copy, Clone)]
pub enum Source {
    CurrentSpEl0,
    CurrentSpElx,
    LowerAArch64,
    LowerAArch32,
}

/// What the exception vector reports on entry: the source and kind of the
/// exception that occurred.
#[derive(Debug, PartialEq, Eq, Structural, Copy, Clone)]
pub struct Info {
    pub source: Source,
    pub kind: Kind,
}

/// The cause of an instruction or data abort, from the fault status code in
/// the low six bits of the syndrome.
#[derive(Debug, PartialEq, Eq, Structural, Copy, Clone)]
pub enum Fault {
    AddressSize,
    Translation,
    AccessFlag,
    Permission,
    Alignment,
    TlbConflict,
    Other(u8),
}

/// The fault `Fault::from` decodes from a fault status code.
pub open spec fn spec_fault_from(val: u32) -> Fault {
    let code = val & 0x3F;
    if code <= 0b000011 {
        Fault::AddressSize
    } else if 0b000101 <= code <= 0b000111 {
        Fault::Translation
    } else if 0b001001 <= code <= 0b001011 {
        Fault::AccessFlag
    } else if 0b001101 <= code <= 0b001111 {
        Fault::Permission
    } else if code == 0b100001 {
        Fault::Alignment
    } else if code == 0b110000 {
        Fault::TlbConflict
    } else {
        Fault::Other(code as u8)
    }
}

impl vstd::std_specs::convert::FromSpecImpl<u32> for Fault {
    open spec fn obeys_from_spec() -> bool {
        true
    }

    open spec fn from_spec(v: u32) -> Fault {
        spec_fault_from(v)
    }
}

impl From<u32> for Fault {
    /// Decodes the instruction- or data-fault status code in the low six bits.
    fn from(val: u32) -> (r: Fault) {
        let code = val & 0x3F;
        let r = if code <= 0b000011 {
            Fault::AddressSize
        } else if 0b000101 <= code && code <= 0b000111 {
            Fault::Translation
        } else if 0b001001 <= code && code <= 0b001011 {
            Fault::AccessFlag
        } else if 0b001101 <= code && code <= 0b001111 {
            Fault::Permission
        } else if code == 0b100001 {
            Fault::Alignment
        } else if code == 0b110000 {
            Fault::TlbConflict
        } else {
            proof {
                assert(code <= 0x3F) by (bit_vector)
                    requires
                        code == val & 0x3F,
                ;
            }
            Fault::Other(code as u8)
        };
        r
    }
}

/// The decoded exception syndrome: what the interrupted code was doing when
/// the exception was taken.
#[derive(Debug, PartialEq, Eq, Structural, Copy, Clone)]
pub enum Syndrome {
    Unknown,
    WfiWfe,
    McrMrc,
    McrrMrrc,
    LdcStc,
    SimdFp,
    Vmrs,
    Mrrc,
    IllegalExecutionState,
    Svc(u16),
    Hvc(u16),
    Smc(u16),
    MsrMrsSystem,
    InstructionAbort { kind: Fault, level: u8 },
    PCAlignmentFault,
    DataAbort { kind: Fault, level: u8 },
    SpAlignmentFault,
    TrappedFpu,
    SError,
    Breakpoint,
    Step,
    Watchpoint,
    Brk(u16),
    Other(u32),
}

/// The syndrome `Syndrome::from` decodes from a raw syndrome register value:
/// the exception class is `esr >> 26`, the instruction-specific part
/// `esr & 0x03FF_FFFF`.
pub open spec fn spec_syndrome_from(esr: u32) -> Syndrome {
    let ec = esr >> 26;
    let iss = esr & 0x03FF_FFFF;
    if ec == 0b000000 {
        Syndrome::Unknown
    } else if ec == 0b000001 {
        Syndrome::WfiWfe
    } else if ec == 0b000011 || ec == 0b000101 {
        Syndrome::McrMrc
    } else if ec == 0b000100 {
        Syndrome::McrrMrrc
    } else if ec == 0b000110 {
        Syndrome::LdcStc
    } else if ec == 0b000111 {
        Syndrome::SimdFp
    } else if ec == 0b001000 {
        Syndrome::Vmrs
    } else if ec == 0b001100 {
        Syndrome::Mrrc
    } else if ec == 0b001110 {
        Syndrome::IllegalExecutionState
    } else if ec == 0b010001 || ec == 0b010101 {
        Syndrome::Svc(iss as u16)
    } else if ec == 0b010010 || ec == 0b010110 {
        Syndrome::Hvc(iss as u16)
    } else if ec == 0b010011 || ec == 0b010111 {
        Syndrome::Smc(iss as u16)
    } else if ec == 0b011000 {
        Syndrome::MsrMrsSystem
    } else if ec == 0b100000 || ec == 0b100001 {
        Syndrome::InstructionAbort { kind: spec_fault_from(iss), level: (iss & 0b11) as u8 }
    } else if ec == 0b100010 {
        Syndrome::PCAlignmentFault
    } else if ec == 0b100100 || ec == 0b100101 {
        Syndrome::DataAbort { kind: spec_fault_from(iss), level: (iss & 0b11) as u8 }
    } else if ec == 0b100110 {
        Syndrome::SpAlignmentFault
    } else if ec == 0b101000 || ec == 0b101100 {
        Syndrome::TrappedFpu
    } else if ec == 0b101111 {
        Syndrome::SError
    } else if ec == 0b110000 || ec == 0b110001 {
        Syndrome::Breakpoint
    } else if ec == 0b110010 || ec == 0b110011 {
        Syndrome::Step
    } else if ec == 0b110100 || ec == 0b110101 {
        Syndrome::Watchpoint
    } else if ec == 0b111000 || ec == 0b111100 {
        Syndrome::Brk(iss as u16)
    } else {
        Syndrome::Other(ec)
    }
}

impl vstd::std_specs::convert::FromSpecImpl<u32> for Syndrome {
    open spec fn obeys_from_spec() -> bool {
        true
    }

    open spec fn from_spec(v: u32) -> Syndrome {
        spec_syndrome_from(v)
    }
}

impl From<u32> for Syndrome {
    /// Decodes a raw exception syndrome register value.
    fn from(esr: u32) -> (r: Syndrome) {
        let ec = esr >> 26;
        let iss = esr & 0x03FF_FFFF;
        if ec == 0b000000 {
            Syndrome::Unknown
        } else if ec == 0b000001 {
            Syndrome::WfiWfe
        } else if ec == 0b000011 || ec == 0b000101 {
            Syndrome::McrMrc
        } else if ec == 0b000100 {
            Syndrome::McrrMrrc
        } else if ec == 0b000110 {
            Syndrome::LdcStc
        } else if ec == 0b000111 {
            Syndrome::SimdFp
        } else if ec == 0b001000 {
            Syndrome::Vmrs
        } else if ec == 0b001100 {
            Syndrome::Mrrc
        } else if ec == 0b001110 {
            Syndrome::IllegalExecutionState
        } else if ec == 0b010001 || ec == 0b010101 {
            Syndrome::Svc(iss as u16)
        } else if ec == 0b010010 || ec == 0b010110 {
            Syndrome::Hvc(iss as u16)
        } else if ec == 0b010011 || ec == 0b010111 {
            Syndrome::Smc(iss as u16)
        } else if ec == 0b011000 {
            Syndrome::MsrMrsSystem
        } else if ec == 0b100000 || ec == 0b100001 {
            Syndrome::InstructionAbort { kind: Fault::from(iss), level: (iss & 0b11) as u8 }
        } else if ec == 0b100010 {
            Syndrome::PCAlignmentFault
        } else if ec == 0b100100 || ec == 0b100101 {
            Syndrome::DataAbort { kind: Fault::from(iss), level: (iss & 0b11) as u8 }
        } else if ec == 0b100110 {
            Syndrome::SpAlignmentFault
        } else if ec == 0b101000 || ec == 0b101100 {
            Syndrome::TrappedFpu
        } else if ec == 0b101111 {
            Syndrome::SError
        } else if ec == 0b110000 || ec == 0b110001 {
            Syndrome::Breakpoint
        } else if ec == 0b110010 || ec == 0b110011 {
            Syndrome::Step
        } else if ec == 0b110100 || ec == 0b110101 {
            Syndrome::Watchpoint
        } else if ec == 0b111000 || ec == 0b111100 {
            Syndrome::Brk(iss as u16)
        } else {
            Syndrome::Other(ec)
        }
    }
}

} // verus!
