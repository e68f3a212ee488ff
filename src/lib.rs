//! A small 32-bit instruction-set simulator: registers, a wrap-around memory,
//! a decoder for a bit-packed variable-length encoding, and the execution step.
use vstd::prelude::*;

pub mod bitflag;
pub mod cpu;
pub mod instr;

use crate::cpu::{code_at, cycle_effect, fetch, Cpu, CpuRegisters, MemIterator, MEM_SIZE};
use crate::instr::{DecodeError, Instruction, ReadMem, MAX_INSTR_LEN};

verus! {

/// A view of the machine for display: its registers, its memory and the
/// instruction that the next cycle would execute.
pub struct Snapshot<'machine> {
    pub next_instr: Option<Instruction>,
    pub registers: CpuRegisters,
    pub mem_block: &'machine [u8],
}

/// A machine with one processor.
pub struct Machine {
    pub cpu: Cpu,
}

impl Machine {
    /// A machine whose registers and memory are all zero.
    pub fn new() -> (r: Self)
        ensures
            r.cpu.wf(),
            r.cpu.registers.instruction_pointer == 0,
            r.cpu.registers.a == 0,
            r.cpu.registers.b == 0,
            r.cpu.registers.x == 0,
            r.cpu.registers.y == 0,
            r.cpu.registers.flags.bits() == 0,
            forall|i: int| 0 <= i < MEM_SIZE ==> r.cpu.mem@[i] == 0,
    {
        Self { cpu: Cpu::new() }
    }

    /// Runs one cycle of the processor.
    pub fn run_cycle(&mut self) -> (r: Result<(), DecodeError>)
        requires
            old(self).cpu.wf(),
        ensures
            final(self).cpu.wf(),
            match cycle_effect(old(self).cpu.registers, old(self).cpu.mem@) {
                Ok(s) => r is Ok && final(self).cpu.registers == s.0 && final(self).cpu.mem@ == s.1,
                Err(e) => r == Err::<(), DecodeError>(e) && final(self).cpu.registers == old(
                    self,
                ).cpu.registers && final(self).cpu.mem@ == old(self).cpu.mem@,
            },
    {
        self.cpu.cycle()
    }

    /// The registers, the memory, and the instruction at the instruction
    /// pointer, or none where those bytes do not decode.
    pub fn snapshot(&self) -> (r: Snapshot<'_>)
        requires
            self.cpu.wf(),
        ensures
            r.registers == self.cpu.registers,
            r.mem_block@ == self.cpu.mem@,
            r.next_instr == match fetch(self.cpu.mem@, self.cpu.registers.instruction_pointer) {
                Ok(p) => Some(p.instr),
                Err(_) => None::<Instruction>,
            },
    {
        let ip = self.cpu.registers.instruction_pointer;
        let start = (ip as usize) % self.cpu.mem.len();
        let iter = MemIterator::new(start, self.cpu.mem.as_slice());
        assert(cpu::bytes_ahead(&iter, MAX_INSTR_LEN as nat) =~= code_at(self.cpu.mem@, ip));
        let next_instr = match Instruction::read(iter) {
            Ok(parsed) => Some(parsed.instr),
            Err(_) => None,
        };
        Snapshot { next_instr, registers: self.cpu.registers, mem_block: self.cpu.mem.as_slice() }
    }
}

} // verus!
