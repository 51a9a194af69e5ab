use vstd::prelude::*;

use crate::gb::cpu::Cpu;
use crate::gb::error::ErrorKind;
use crate::gb::machine::Machine;
use crate::gb::memory::Memory;

pub mod cpu;
pub mod error;
pub mod flags;
pub mod instruction;
pub mod machine;
pub mod memory;
pub mod mmu;
pub mod word;

verus! {

/// A CPU wired to its address space, with a count of the cycles stepped.
pub struct Gb {
    pub cpu: Cpu,
    pub memory: Memory,
    pub cycles: usize,
}

impl Gb {
    /// The registers and memory content as one machine.
    pub open spec fn machine(self) -> Machine {
        Machine::of(self.cpu, self.memory@)
    }

    /// A machine at power-on: registers zero, memory zero, no cycle stepped.
    pub fn new() -> (gb: Self)
        ensures
            gb.cpu == Cpu::zeroed(),
            gb.cpu.wf(),
            forall|addr: u16| gb.memory@[addr] == 0,
            gb.cycles == 0,
    {
        Self { cpu: Cpu::new(), memory: Memory::new(), cycles: 0 }
    }

    /// Steps one instruction: fetches the opcode at PC, counts the cycle and
    /// executes the opcode. Returns the opcode and what executing it reported.
    pub fn emulate_cycle(&mut self) -> (step: (u8, Result<(), ErrorKind>))
        ensures
            step.0 == old(self).machine().fetch().0,
            final(self).machine() == old(self).machine().fetch().1.execute(step.0),
            match old(self).machine().fetch().1.unimplemented(step.0) {
                Some(byte) => step.1 == Err::<(), ErrorKind>(ErrorKind::UnimplementedOpcode(byte)),
                None => step.1 is Ok,
            },
            old(self).cpu.wf() ==> final(self).cpu.wf(),
            final(self).cycles == if old(self).cycles == usize::MAX {
                0
            } else {
                old(self).cycles + 1
            },
    {
        let instr = self.cpu.fetch_instruction(&mut self.memory);
        self.cycles = self.cycles.wrapping_add(1);
        let result = self.cpu.execute_instruction(instr, &mut self.memory);
        (instr, result)
    }
}

} // verus!
