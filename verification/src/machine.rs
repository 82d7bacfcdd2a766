//! The complete simulated machine: register file, memory bank and zero
//! flag, owned by the caller so that independent machines can coexist and
//! tests stay isolated.

use vstd::prelude::*;

use crate::memory::MemoryBank;
use crate::memory::MEMORY_SIZE;
use crate::registers::RegisterFile;

verus! {

/// The machine state threaded through every decode/execute call.
pub struct Machine {
    pub regs: RegisterFile,
    pub memory: MemoryBank,
    /// Set by CMP/SUB/ADD execution when the computed result is zero; read
    /// by the conditional-jump-not-equal handling.
    pub zero_flag: bool,
}

/// The mathematical value of a machine: the register file, the memory
/// contents as a byte sequence, and the zero flag.
#[verifier::ext_equal]
pub struct MachineView {
    pub regs: RegisterFile,
    pub mem: Seq<u8>,
    pub zero_flag: bool,
}

impl MachineView {
    /// The memory always spans the full fixed address space.
    pub open spec fn wf(self) -> bool {
        self.mem.len() == MEMORY_SIZE
    }
}

impl View for Machine {
    type V = MachineView;

    open spec fn view(&self) -> MachineView {
        MachineView { regs: self.regs, mem: self.memory@, zero_flag: self.zero_flag }
    }
}

impl Machine {
    pub open spec fn wf(&self) -> bool {
        self@.wf()
    }

    /// A fresh machine: all registers zero, memory zero-filled, flag clear.
    pub fn new() -> (r: Machine)
        ensures
            r.wf(),
            r@.regs.all_zero(),
            !r@.zero_flag,
            forall|i: int| 0 <= i < MEMORY_SIZE ==> r@.mem[i] == 0u8,
    {
        Machine { regs: RegisterFile::new(), memory: MemoryBank::new(), zero_flag: false }
    }
}

} // verus!
