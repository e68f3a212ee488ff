//! Registers, the memory cursor, and the CPU that executes instructions.
use vstd::prelude::*;
use vstd::arithmetic::div_mod::{lemma_add_mod_noop_right, lemma_mod_self_0, lemma_small_mod};

use crate::bitflag::Bitflag;
use crate::instr::{decode_instruction, DecodeError, Instruction, Move, ParsedInstruction, ReadMem, MAX_INSTR_LEN};

verus! {

/// Number of bytes of the machine's memory.
pub const MEM_SIZE: usize = 0x1000_0000;

/// The flag bit that marks a zero result.
pub const ZERO: u8 = 0b0000_0001;

/// A register of the CPU.
#[derive(Debug, PartialEq, Eq, Structural, Clone, Copy)]
pub enum Register {
    A,
    B,
    X,
    Y,
    Ip,
}

/// What a register-id byte of the encoding decodes to: the register, or the id
/// itself when it selects none. The instruction pointer has no id.
pub open spec fn decode_register(id: u8) -> Result<Register, u8> {
    if id == 0 {
        Ok(Register::A)
    } else if id == 1 {
        Ok(Register::B)
    } else if id == 2 {
        Ok(Register::X)
    } else if id == 3 {
        Ok(Register::Y)
    } else {
        Err(id)
    }
}

impl Register {
    /// Decodes a register-id byte; the error is the id that selects no register.
    pub fn try_from_id(id: u8) -> (r: Result<Self, u8>)
        ensures
            r == decode_register(id),
    {
        match id {
            0x0 => Ok(Self::A),
            0x1 => Ok(Self::B),
            0x2 => Ok(Self::X),
            0x3 => Ok(Self::Y),
            _ => Err(id),
        }
    }
}

/// The register file.
#[derive(Clone, Copy)]
pub struct CpuRegisters {
    pub instruction_pointer: u32,
    pub a: u32,
    pub b: u32,
    pub x: u32,
    pub y: u32,
    pub flags: Bitflag<u8>,
}

impl CpuRegisters {
    /// The value held by register `r`.
    pub open spec fn reg(self, r: Register) -> u32 {
        match r {
            Register::A => self.a,
            Register::B => self.b,
            Register::X => self.x,
            Register::Y => self.y,
            Register::Ip => self.instruction_pointer,
        }
    }

    /// The register file with register `r` replaced by `v`, all else kept.
    pub open spec fn with_reg(self, r: Register, v: u32) -> CpuRegisters {
        match r {
            Register::A => CpuRegisters { a: v, ..self },
            Register::B => CpuRegisters { b: v, ..self },
            Register::X => CpuRegisters { x: v, ..self },
            Register::Y => CpuRegisters { y: v, ..self },
            Register::Ip => CpuRegisters { instruction_pointer: v, ..self },
        }
    }
}

impl Default for CpuRegisters {
    /// Every register and every flag zero.
    fn default() -> (r: Self)
        ensures
            r.instruction_pointer == 0,
            r.a == 0,
            r.b == 0,
            r.x == 0,
            r.y == 0,
            r.flags.bits() == 0,
    {
        let flags: Bitflag<u8> = Bitflag::default();
        CpuRegisters { instruction_pointer: 0, a: 0, b: 0, x: 0, y: 0, flags }
    }
}

/// `v` written into the low 16 bits of `old`, the high 16 bits kept.
pub open spec fn merge16(old: u32, v: u16) -> u32 {
    (old & 0xFFFF_0000) | (v as u32)
}

/// `v` written into the low 8 bits of `old`, the high 24 bits kept.
pub open spec fn merge8(old: u32, v: u8) -> u32 {
    (old & 0xFFFF_FF00) | (v as u32)
}

/// The little-endian value of two bytes.
pub open spec fn le16(b0: u8, b1: u8) -> u16 {
    (b0 as u16) | ((b1 as u16) << 8)
}

/// The little-endian value of four bytes.
pub open spec fn le32(b0: u8, b1: u8, b2: u8, b3: u8) -> u32 {
    (b0 as u32) | ((b1 as u32) << 8) | ((b2 as u32) << 16) | ((b3 as u32) << 24)
}

/// Where a cursor made at `index` over `len` bytes starts reading: an index
/// past the end starts over at the first byte.
pub open spec fn cursor_start(index: int, len: int) -> int {
    if index >= len {
        0
    } else {
        index
    }
}

/// The byte `k` places after position `start`, wrapping around the end of `mem`.
pub open spec fn byte_after(mem: Seq<u8>, start: int, k: int) -> u8 {
    mem[(start + k) % (mem.len() as int)]
}

/// A sequential reader of bytes.
pub trait MemIter {
    /// Whether the reader can be read from.
    spec fn well_formed(&self) -> bool;

    /// The byte `k` places ahead of the reader.
    spec fn peek(&self, k: int) -> u8;

    /// How many bytes have been read since the reader was made.
    spec fn consumed(&self) -> nat;

    /// Reads one byte.
    fn next8(&mut self) -> (r: u8)
        requires
            old(self).well_formed(),
            old(self).consumed() + 1 <= usize::MAX,
        ensures
            final(self).well_formed(),
            r == old(self).peek(0),
            final(self).consumed() == old(self).consumed() + 1,
            forall|k: int| 0 <= k ==> #[trigger] final(self).peek(k) == old(self).peek(k + 1),
    ;

    /// Reads two bytes as a little-endian value.
    fn next16(&mut self) -> (r: u16)
        requires
            old(self).well_formed(),
            old(self).consumed() + 2 <= usize::MAX,
        ensures
            final(self).well_formed(),
            r == le16(old(self).peek(0), old(self).peek(1)),
            final(self).consumed() == old(self).consumed() + 2,
            forall|k: int| 0 <= k ==> #[trigger] final(self).peek(k) == old(self).peek(k + 2),
    ;

    /// Reads four bytes as a little-endian value.
    fn next32(&mut self) -> (r: u32)
        requires
            old(self).well_formed(),
            old(self).consumed() + 4 <= usize::MAX,
        ensures
            final(self).well_formed(),
            r == le32(old(self).peek(0), old(self).peek(1), old(self).peek(2), old(self).peek(3)),
            final(self).consumed() == old(self).consumed() + 4,
            forall|k: int| 0 <= k ==> #[trigger] final(self).peek(k) == old(self).peek(k + 4),
    ;

    /// How many bytes have been read since the reader was made.
    fn travelled(&self) -> (r: usize)
        ensures
            r == self.consumed(),
    ;
}

/// The next `n` bytes ahead of a reader.
pub open spec fn bytes_ahead<I: MemIter>(iter: &I, n: nat) -> Seq<u8> {
    Seq::new(n, |k: int| iter.peek(k))
}

/// A reader over a block of memory that wraps around its end.
pub struct MemIterator<'mem> {
    index: usize,
    travelled: usize,
    mem: &'mem [u8],
}

/// The position after `i` in a block of `len` bytes.
fn step(i: usize, len: usize) -> (r: usize)
    requires
        i < len,
    ensures
        r == (i + 1) % (len as int),
{
    if i + 1 == len {
        proof {
            lemma_mod_self_0(len as int);
        }
        0
    } else {
        proof {
            lemma_small_mod((i + 1) as nat, len as nat);
        }
        i + 1
    }
}

impl<'mem> MemIterator<'mem> {
    /// A reader at `start` over `mem`.
    pub fn new(start: usize, mem: &'mem [u8]) -> (r: Self)
        ensures
            r.well_formed() == (mem@.len() > 0),
            r.consumed() == 0,
            forall|k: int|
                0 <= k ==> #[trigger] r.peek(k) == byte_after(
                    mem@,
                    cursor_start(start as int, mem@.len() as int),
                    k,
                ),
    {
        Self { index: start, travelled: 0, mem }
    }

    /// The position of the next byte, the start moved back to the first byte
    /// when it lies past the end.
    fn position(&mut self) -> (r: usize)
        requires
            old(self).well_formed(),
        ensures
            r < old(self).mem@.len(),
            r == cursor_start(old(self).index as int, old(self).mem@.len() as int),
            *final(self) == (MemIterator { index: r, ..*old(self) }),
    {
        if self.index >= self.mem.len() {
            self.index = 0;
        }
        self.index
    }
}

impl<'mem> MemIter for MemIterator<'mem> {
    closed spec fn well_formed(&self) -> bool {
        self.mem@.len() > 0
    }

    closed spec fn peek(&self, k: int) -> u8 {
        byte_after(self.mem@, cursor_start(self.index as int, self.mem@.len() as int), k)
    }

    closed spec fn consumed(&self) -> nat {
        self.travelled as nat
    }

    fn next32(&mut self) -> (r: u32) {
        let len = self.mem.len();
        let i0 = self.position();
        let i1 = step(i0, len);
        let i2 = step(i1, len);
        let i3 = step(i2, len);
        let v = self.mem[i0] as u32 | ((self.mem[i1] as u32) << 8) | ((self.mem[i2] as u32) << 16)
            | ((self.mem[i3] as u32) << 24);
        self.index = step(i3, len);
        self.travelled = self.travelled + 4;
        proof {
            let l = len as int;
            lemma_small_mod(i0 as nat, l as nat);
            lemma_add_mod_noop_right(1, i0 as int + 1, l);
            lemma_add_mod_noop_right(1, i0 as int + 2, l);
            lemma_add_mod_noop_right(1, i0 as int + 3, l);
            assert forall|k: int| 0 <= k implies #[trigger] self.peek(k) == old(self).peek(k + 4) by {
                lemma_add_mod_noop_right(k, i0 as int + 4, l);
            }
        }
        v
    }

    fn next16(&mut self) -> (r: u16) {
        let len = self.mem.len();
        let i0 = self.position();
        let i1 = step(i0, len);
        let v = self.mem[i0] as u16 | ((self.mem[i1] as u16) << 8);
        self.index = step(i1, len);
        self.travelled = self.travelled + 2;
        proof {
            let l = len as int;
            lemma_small_mod(i0 as nat, l as nat);
            lemma_add_mod_noop_right(1, i0 as int + 1, l);
            assert forall|k: int| 0 <= k implies #[trigger] self.peek(k) == old(self).peek(k + 2) by {
                lemma_add_mod_noop_right(k, i0 as int + 2, l);
            }
        }
        v
    }

    fn next8(&mut self) -> (r: u8) {
        let len = self.mem.len();
        let i0 = self.position();
        let v = self.mem[i0];
        self.index = step(i0, len);
        self.travelled = self.travelled + 1;
        proof {
            let l = len as int;
            lemma_small_mod(i0 as nat, l as nat);
            assert forall|k: int| 0 <= k implies #[trigger] self.peek(k) == old(self).peek(k + 1) by {
                lemma_add_mod_noop_right(k, i0 as int + 1, l);
            }
        }
        v
    }

    fn travelled(&self) -> (r: usize) {
        self.travelled
    }
}

/// Where the byte `k` places after `addr` lies in a memory of `len` bytes: the
/// address advances with 32-bit wrap-around and is then taken modulo the length.
pub open spec fn mem_index(len: nat, addr: u32, k: u32) -> int {
    (addr.wrapping_add(k) as int) % (len as int)
}

/// The byte at `addr`.
pub open spec fn load8(mem: Seq<u8>, addr: u32) -> u8 {
    mem[mem_index(mem.len(), addr, 0)]
}

/// The 16-bit little-endian value at `addr`.
pub open spec fn load16(mem: Seq<u8>, addr: u32) -> u16 {
    le16(mem[mem_index(mem.len(), addr, 0)], mem[mem_index(mem.len(), addr, 1)])
}

/// The 32-bit little-endian value at `addr`.
pub open spec fn load32(mem: Seq<u8>, addr: u32) -> u32 {
    le32(
        mem[mem_index(mem.len(), addr, 0)],
        mem[mem_index(mem.len(), addr, 1)],
        mem[mem_index(mem.len(), addr, 2)],
        mem[mem_index(mem.len(), addr, 3)],
    )
}

/// `mem` with the byte `v` written at `addr`.
pub open spec fn store8(mem: Seq<u8>, addr: u32, v: u8) -> Seq<u8> {
    mem.update(mem_index(mem.len(), addr, 0), v)
}

/// `mem` with `v` written little-endian at `addr`, low byte first.
pub open spec fn store16(mem: Seq<u8>, addr: u32, v: u16) -> Seq<u8> {
    mem.update(mem_index(mem.len(), addr, 0), v as u8).update(
        mem_index(mem.len(), addr, 1),
        (v >> 8) as u8,
    )
}

/// `mem` with `v` written little-endian at `addr`, low byte first.
pub open spec fn store32(mem: Seq<u8>, addr: u32, v: u32) -> Seq<u8> {
    mem.update(mem_index(mem.len(), addr, 0), v as u8).update(
        mem_index(mem.len(), addr, 1),
        (v >> 8) as u8,
    ).update(mem_index(mem.len(), addr, 2), (v >> 16) as u8).update(
        mem_index(mem.len(), addr, 3),
        (v >> 24) as u8,
    )
}

/// The registers and memory after the move `m`.
pub open spec fn move_effect(regs: CpuRegisters, mem: Seq<u8>, m: Move) -> (CpuRegisters, Seq<u8>) {
    match m {
        Move::RegToReg(s, d) => (regs.with_reg(d, regs.reg(s)), mem),
        Move::RegToMem32(s, a) => (regs, store32(mem, a, regs.reg(s))),
        Move::RegToMem16(s, a) => (regs, store16(mem, a, regs.reg(s) as u16)),
        Move::RegToMem8(s, a) => (regs, store8(mem, a, regs.reg(s) as u8)),
        Move::MemToReg32(a, d) => (regs.with_reg(d, load32(mem, a)), mem),
        Move::MemToReg16(a, d) => (regs.with_reg(d, merge16(regs.reg(d), load16(mem, a))), mem),
        Move::MemToReg8(a, d) => (regs.with_reg(d, merge8(regs.reg(d), load8(mem, a))), mem),
        Move::MemToMem32(s, d) => (regs, store32(mem, d, load32(mem, s))),
        Move::MemToMem16(s, d) => (regs, store16(mem, d, load16(mem, s))),
        Move::MemToMem8(s, d) => (regs, store8(mem, d, load8(mem, s))),
    }
}

/// The registers and memory after the instruction `i`.
pub open spec fn instruction_effect(regs: CpuRegisters, mem: Seq<u8>, i: Instruction) -> (
    CpuRegisters,
    Seq<u8>,
) {
    match i {
        Instruction::Halt => (regs, mem),
        Instruction::Move(m) => move_effect(regs, mem, m),
    }
}

/// The bytes of memory from `ip` on, as many as the longest instruction takes,
/// wrapping around the end.
pub open spec fn code_at(mem: Seq<u8>, ip: u32) -> Seq<u8> {
    Seq::new(MAX_INSTR_LEN as nat, |k: int| byte_after(mem, ip as int % (mem.len() as int), k))
}

/// The instruction that memory holds at `ip`.
pub open spec fn fetch(mem: Seq<u8>, ip: u32) -> Result<ParsedInstruction, DecodeError> {
    decode_instruction(code_at(mem, ip))
}

/// The registers and memory after one cycle: the instruction at the
/// instruction pointer is decoded, the pointer advances past it with 32-bit
/// wrap-around, and then the instruction takes effect. A decode error leaves
/// everything as it was.
pub open spec fn cycle_effect(regs: CpuRegisters, mem: Seq<u8>) -> Result<
    (CpuRegisters, Seq<u8>),
    DecodeError,
> {
    match fetch(mem, regs.instruction_pointer) {
        Ok(p) => Ok(
            instruction_effect(
                regs.with_reg(Register::Ip, regs.instruction_pointer.wrapping_add(p.delta_ip)),
                mem,
                p.instr,
            ),
        ),
        Err(e) => Err(e),
    }
}

/// The processor: its registers and its memory.
pub struct Cpu {
    pub registers: CpuRegisters,
    pub mem: Vec<u8>,
}

impl Cpu {
    /// The memory holds `MEM_SIZE` bytes.
    pub open spec fn wf(&self) -> bool {
        self.mem@.len() == MEM_SIZE
    }

    /// A processor with every register, every flag and every byte of memory zero.
    pub fn new() -> (r: Self)
        ensures
            r.wf(),
            r.registers.instruction_pointer == 0,
            r.registers.a == 0,
            r.registers.b == 0,
            r.registers.x == 0,
            r.registers.y == 0,
            r.registers.flags.bits() == 0,
            forall|i: int| 0 <= i < MEM_SIZE ==> r.mem@[i] == 0,
    {
        Cpu { registers: CpuRegisters::default(), mem: vec![0u8; MEM_SIZE] }
    }

    /// Decodes the instruction at the instruction pointer, advances the
    /// pointer past it and executes it. On a decode error nothing changes and
    /// the error is returned.
    pub fn cycle(&mut self) -> (r: Result<(), DecodeError>)
        requires
            old(self).wf(),
        ensures
            final(self).wf(),
            match cycle_effect(old(self).registers, old(self).mem@) {
                Ok(s) => r is Ok && final(self).registers == s.0 && final(self).mem@ == s.1,
                Err(e) => r == Err::<(), DecodeError>(e) && final(self).registers == old(
                    self,
                ).registers && final(self).mem@ == old(self).mem@,
            },
    {
        let ip = self.registers.instruction_pointer;
        let start = (ip as usize) % self.mem.len();
        let iter = MemIterator::new(start, self.mem.as_slice());
        assert(bytes_ahead(&iter, MAX_INSTR_LEN as nat) =~= code_at(self.mem@, ip));
        match Instruction::read(iter) {
            Ok(parsed) => {
                self.registers.instruction_pointer = ip.wrapping_add(parsed.delta_ip);
                self.do_instruction(parsed.instr);
                Ok(())
            },
            Err(e) => Err(e),
        }
    }

    /// Executes `instr`.
    pub fn do_instruction(&mut self, instr: Instruction)
        requires
            old(self).wf(),
        ensures
            final(self).wf(),
            (final(self).registers, final(self).mem@) == instruction_effect(
                old(self).registers,
                old(self).mem@,
                instr,
            ),
    {
        match instr {
            Instruction::Halt => {},
            Instruction::Move(move_instr) => self.do_move_instruction(move_instr),
        }
    }

    /// Executes the move `move_instr`.
    pub fn do_move_instruction(&mut self, move_instr: Move)
        requires
            old(self).wf(),
        ensures
            final(self).wf(),
            (final(self).registers, final(self).mem@) == move_effect(
                old(self).registers,
                old(self).mem@,
                move_instr,
            ),
    {
        match move_instr {
            Move::RegToReg(reg_src, reg_dst) => {
                let v = self.get_reg(reg_src);
                self.set_reg32(reg_dst, v);
            },
            Move::RegToMem32(reg_src, addr) => {
                let v = self.get_reg(reg_src);
                self.write_mem32(addr, v);
            },
            Move::RegToMem16(reg_src, addr) => {
                let v = self.get_reg(reg_src);
                self.write_mem16(addr, v as u16);
            },
            Move::RegToMem8(reg_src, addr) => {
                let v = self.get_reg(reg_src);
                self.write_mem8(addr, v as u8);
            },
            Move::MemToReg32(addr, reg_dst) => {
                let v = self.read_mem32(addr);
                self.set_reg32(reg_dst, v);
            },
            Move::MemToReg16(addr, reg_dst) => {
                let v = self.read_mem16(addr);
                self.set_reg16(reg_dst, v);
            },
            Move::MemToReg8(addr, reg_dst) => {
                let v = self.read_mem8(addr);
                self.set_reg8(reg_dst, v);
            },
            Move::MemToMem32(addr_src, addr_dest) => {
                let v = self.read_mem32(addr_src);
                self.write_mem32(addr_dest, v);
            },
            Move::MemToMem16(addr_src, addr_dest) => {
                let v = self.read_mem16(addr_src);
                self.write_mem16(addr_dest, v);
            },
            Move::MemToMem8(addr_src, addr_dest) => {
                let v = self.read_mem8(addr_src);
                self.write_mem8(addr_dest, v);
            },
        }
    }

    /// The value of register `reg`.
    pub fn get_reg(&self, reg: Register) -> (r: u32)
        ensures
            r == self.registers.reg(reg),
    {
        match reg {
            Register::A => self.registers.a,
            Register::B => self.registers.b,
            Register::X => self.registers.x,
            Register::Y => self.registers.y,
            Register::Ip => self.registers.instruction_pointer,
        }
    }

    /// Replaces the whole of register `reg` by `value`.
    pub fn set_reg32(&mut self, reg: Register, value: u32)
        ensures
            final(self).registers == old(self).registers.with_reg(reg, value),
            final(self).mem == old(self).mem,
    {
        match reg {
            Register::A => self.registers.a = value,
            Register::B => self.registers.b = value,
            Register::X => self.registers.x = value,
            Register::Y => self.registers.y = value,
            Register::Ip => self.registers.instruction_pointer = value,
        }
    }

    /// Writes `value` into the low 16 bits of register `reg`, keeping its high bits.
    pub fn set_reg16(&mut self, reg: Register, value: u16)
        ensures
            final(self).registers == old(self).registers.with_reg(
                reg,
                merge16(old(self).registers.reg(reg), value),
            ),
            final(self).mem == old(self).mem,
    {
        let merged = (self.get_reg(reg) & 0xFFFF_0000) | (value as u32);
        self.set_reg32(reg, merged);
    }

    /// Writes `value` into the low 8 bits of register `reg`, keeping its high bits.
    pub fn set_reg8(&mut self, reg: Register, value: u8)
        ensures
            final(self).registers == old(self).registers.with_reg(
                reg,
                merge8(old(self).registers.reg(reg), value),
            ),
            final(self).mem == old(self).mem,
    {
        let merged = (self.get_reg(reg) & 0xFFFF_FF00) | (value as u32);
        self.set_reg32(reg, merged);
    }

    /// The position in memory of the byte `k` places after `addr`.
    fn index_of(&self, addr: u32, k: u32) -> (r: usize)
        requires
            self.wf(),
        ensures
            r == mem_index(self.mem@.len(), addr, k),
            r < self.mem@.len(),
    {
        (addr.wrapping_add(k) as usize) % self.mem.len()
    }

    /// The 32-bit little-endian value at `addr`.
    pub fn read_mem32(&self, addr: u32) -> (r: u32)
        requires
            self.wf(),
        ensures
            r == load32(self.mem@, addr),
    {
        let b0 = self.mem[self.index_of(addr, 0)];
        let b1 = self.mem[self.index_of(addr, 1)];
        let b2 = self.mem[self.index_of(addr, 2)];
        let b3 = self.mem[self.index_of(addr, 3)];
        b0 as u32 | ((b1 as u32) << 8) | ((b2 as u32) << 16) | ((b3 as u32) << 24)
    }

    /// The 16-bit little-endian value at `addr`.
    pub fn read_mem16(&self, addr: u32) -> (r: u16)
        requires
            self.wf(),
        ensures
            r == load16(self.mem@, addr),
    {
        let b0 = self.mem[self.index_of(addr, 0)];
        let b1 = self.mem[self.index_of(addr, 1)];
        b0 as u16 | ((b1 as u16) << 8)
    }

    /// The byte at `addr`.
    pub fn read_mem8(&self, addr: u32) -> (r: u8)
        requires
            self.wf(),
        ensures
            r == load8(self.mem@, addr),
    {
        self.mem[self.index_of(addr, 0)]
    }

    /// Writes `value` little-endian at `addr`.
    pub fn write_mem32(&mut self, addr: u32, value: u32)
        requires
            old(self).wf(),
        ensures
            final(self).wf(),
            final(self).mem@ == store32(old(self).mem@, addr, value),
            final(self).registers == old(self).registers,
    {
        let i0 = self.index_of(addr, 0);
        let i1 = self.index_of(addr, 1);
        let i2 = self.index_of(addr, 2);
        let i3 = self.index_of(addr, 3);
        self.mem.set(i0, value as u8);
        self.mem.set(i1, (value >> 8) as u8);
        self.mem.set(i2, (value >> 16) as u8);
        self.mem.set(i3, (value >> 24) as u8);
    }

    /// Writes `value` little-endian at `addr`.
    pub fn write_mem16(&mut self, addr: u32, value: u16)
        requires
            old(self).wf(),
        ensures
            final(self).wf(),
            final(self).mem@ == store16(old(self).mem@, addr, value),
            final(self).registers == old(self).registers,
    {
        let i0 = self.index_of(addr, 0);
        let i1 = self.index_of(addr, 1);
        self.mem.set(i0, value as u8);
        self.mem.set(i1, (value >> 8) as u8);
    }

    /// Writes the byte `value` at `addr`.
    pub fn write_mem8(&mut self, addr: u32, value: u8)
        requires
            old(self).wf(),
        ensures
            final(self).wf(),
            final(self).mem@ == store8(old(self).mem@, addr, value),
            final(self).registers == old(self).registers,
    {
        let i0 = self.index_of(addr, 0);
        self.mem.set(i0, value);
    }
}

/// Writing the low byte of `v` into register `r` and reading `r` back gives
/// the old high 24 bits of `r` over the low 8 bits of `v`; every other
/// register keeps its value.
pub proof fn lemma_write8_read_back(regs: CpuRegisters, r: Register, v: u32)
    ensures
        regs.with_reg(r, merge8(regs.reg(r), v as u8)).reg(r) == (regs.reg(r) & 0xFFFF_FF00) | (v
            & 0xFF),
        forall|q: Register| q != r ==> #[trigger] regs.with_reg(r, merge8(regs.reg(r), v as u8)).reg(q) == regs.reg(q),
{
    let old = regs.reg(r);
    assert(merge8(old, v as u8) == (old & 0xFFFF_FF00) | (v & 0xFF)) by (bit_vector);
}

/// Writing the low 16 bits of `v` into register `r` and reading `r` back
/// gives the old high 16 bits of `r` over the low 16 bits of `v`; every other
/// register keeps its value.
pub proof fn lemma_write16_read_back(regs: CpuRegisters, r: Register, v: u32)
    ensures
        regs.with_reg(r, merge16(regs.reg(r), v as u16)).reg(r) == (regs.reg(r) & 0xFFFF_0000) | (v
            & 0xFFFF),
        forall|q: Register| q != r ==> #[trigger] regs.with_reg(r, merge16(regs.reg(r), v as u16)).reg(q) == regs.reg(q),
{
    let old = regs.reg(r);
    assert(merge16(old, v as u16) == (old & 0xFFFF_0000) | (v & 0xFFFF)) by (bit_vector);
}

/// A cursor made at the last byte of a memory of at least three bytes reads
/// that byte first and then goes on from the start: a 32-bit read there takes
/// the bytes at `len - 1`, 0, 1 and 2.
pub proof fn lemma_cursor_wraps_at_end(mem: Seq<u8>)
    requires
        mem.len() >= 3,
    ensures
        ({
            let s = cursor_start(mem.len() - 1, mem.len() as int);
            le32(
                byte_after(mem, s, 0),
                byte_after(mem, s, 1),
                byte_after(mem, s, 2),
                byte_after(mem, s, 3),
            ) == le32(mem[mem.len() - 1], mem[0], mem[1], mem[2])
        }),
{
    let l = mem.len() as int;
    lemma_small_mod((l - 1) as nat, l as nat);
    lemma_mod_self_0(l);
    lemma_add_mod_noop_right(1, l, l);
    lemma_add_mod_noop_right(2, l, l);
    lemma_small_mod(1, l as nat);
    lemma_small_mod(2, l as nat);
    assert((l - 1 + 2) % l == 1);
    assert((l - 1 + 3) % l == 2);
}

/// With the instruction pointer at the top of the 32-bit address space and a
/// halt byte where that address falls in memory, a cycle wraps the pointer
/// around to zero and changes nothing else.
pub proof fn lemma_ip_wraps_to_zero(regs: CpuRegisters, mem: Seq<u8>)
    requires
        mem.len() > 0,
        regs.instruction_pointer == 0xFFFF_FFFF,
        mem[0xFFFF_FFFFint % (mem.len() as int)] == 0,
    ensures
        cycle_effect(regs, mem) == Ok::<(CpuRegisters, Seq<u8>), DecodeError>(
            (regs.with_reg(Register::Ip, 0), mem),
        ),
{
    let s = 0xFFFF_FFFFint % (mem.len() as int);
    lemma_small_mod(s as nat, mem.len());
    assert(code_at(mem, 0xFFFF_FFFF)[0] == mem[s]);
}

/// A halt changes no register and no byte of memory, and a cycle that
/// decodes one only moves the instruction pointer past its single byte.
pub proof fn lemma_halt_changes_nothing(regs: CpuRegisters, mem: Seq<u8>)
    ensures
        instruction_effect(regs, mem, Instruction::Halt) == (regs, mem),
        fetch(mem, regs.instruction_pointer) matches Ok(p) && p.instr == Instruction::Halt
            ==> cycle_effect(regs, mem) == Ok::<(CpuRegisters, Seq<u8>), DecodeError>(
            (regs.with_reg(Register::Ip, regs.instruction_pointer.wrapping_add(1)), mem),
        ),
{
}

} // verus!
