//! The register file: four general-purpose registers and one result
//! register, each holding an unsigned 16-bit value.
//!
//! Registers are addressed by name; the closed set of names is
//! {"a", "b", "c", "d", "res"}. Every arithmetic or comparison instruction
//! writes its result to `res`.

use vstd::prelude::*;

verus! {

/// The register file.
#[derive(Clone, Copy, Debug, PartialEq, Eq, Structural)]
pub struct CpuRegisters {
    pub a: u16,
    pub b: u16,
    pub c: u16,
    pub d: u16,
    pub res: u16,
}

impl Default for CpuRegisters {
    /// All registers start at zero.
    fn default() -> (r: CpuRegisters)
        ensures
            r == (CpuRegisters { a: 0u16, b: 0u16, c: 0u16, d: 0u16, res: 0u16 }),
    {
        CpuRegisters { a: 0, b: 0, c: 0, d: 0, res: 0 }
    }
}

/// The value of the register called `name`, or `None` if `name` lies
/// outside the closed register set.
pub open spec fn register_read(registers: CpuRegisters, name: Seq<char>) -> Option<u16> {
    if name == "a"@ {
        Some(registers.a)
    } else if name == "b"@ {
        Some(registers.b)
    } else if name == "c"@ {
        Some(registers.c)
    } else if name == "d"@ {
        Some(registers.d)
    } else if name == "res"@ {
        Some(registers.res)
    } else {
        None
    }
}

/// The register file after writing `value` to the register called `name`,
/// or `None` if `name` lies outside the closed register set.
pub open spec fn register_write(registers: CpuRegisters, name: Seq<char>, value: u16) -> Option<
    CpuRegisters,
> {
    if name == "a"@ {
        Some(CpuRegisters { a: value, ..registers })
    } else if name == "b"@ {
        Some(CpuRegisters { b: value, ..registers })
    } else if name == "c"@ {
        Some(CpuRegisters { c: value, ..registers })
    } else if name == "d"@ {
        Some(CpuRegisters { d: value, ..registers })
    } else if name == "res"@ {
        Some(CpuRegisters { res: value, ..registers })
    } else {
        None
    }
}

} // verus!
