//! The instruction set and its decoder.
use vstd::prelude::*;

use crate::cpu::{bytes_ahead, decode_register, le32, MemIter, Register};

verus! {

/// The length of the longest encoded instruction, in bytes.
pub const MAX_INSTR_LEN: usize = 10;

/// Which operand of an instruction a register id stands for.
#[derive(Debug, PartialEq, Eq, Structural, Clone, Copy)]
pub enum Operand {
    Source,
    Destination,
}

/// Why bytes do not decode to an instruction.
#[derive(Debug, PartialEq, Eq, Structural, Clone, Copy)]
pub enum DecodeError {
    /// The first byte of the instruction names no group; it is given.
    InvalidGroup(u8),
    /// A register-id byte selects no register; the operand and the id are given.
    InvalidRegister(Operand, u8),
}

/// A decoded instruction with the number of bytes it occupies.
#[derive(Debug, PartialEq, Eq, Structural, Clone, Copy)]
pub struct ParsedInstruction {
    pub instr: Instruction,
    pub delta_ip: u32,
}

/// An instruction of the machine.
#[derive(Debug, PartialEq, Eq, Structural, Clone, Copy)]
pub enum Instruction {
    Move(Move),
    Halt,
}

/// A copy between registers and memory; the number is the width in bits.
#[derive(Debug, PartialEq, Eq, Structural, Clone, Copy)]
pub enum Move {
    RegToReg(Register, Register),
    RegToMem32(Register, u32),
    RegToMem16(Register, u32),
    RegToMem8(Register, u32),
    MemToReg32(u32, Register),
    MemToReg16(u32, Register),
    MemToReg8(u32, Register),
    MemToMem32(u32, u32),
    MemToMem16(u32, u32),
    MemToMem8(u32, u32),
}

/// The addressing shape in the top two bits of a move-group byte:
/// 0 register to register, 1 register to memory, 2 memory to register,
/// 3 memory to memory.
pub open spec fn move_shape(g: u8) -> u8 {
    (g & 0xC0) >> 6
}

/// The width code in bits 4 and 5 of a move-group byte: 0 for 8 bits,
/// 1 for 16 bits, 2 and 3 for 32 bits.
pub open spec fn move_width(g: u8) -> u8 {
    (g & 0x30) >> 4
}

/// What the bytes `b` decode to as the body of a move, from its move-group
/// byte on. The size counts the bytes of the body only.
pub open spec fn decode_move(b: Seq<u8>) -> Result<ParsedInstruction, DecodeError> {
    let g = b[0];
    let w = move_width(g);
    if move_shape(g) == 0 {
        match decode_register(b[1]) {
            Err(id) => Err(DecodeError::InvalidRegister(Operand::Source, id)),
            Ok(s) => match decode_register(b[2]) {
                Err(id) => Err(DecodeError::InvalidRegister(Operand::Destination, id)),
                Ok(d) => Ok(
                    ParsedInstruction { instr: Instruction::Move(Move::RegToReg(s, d)), delta_ip: 3 },
                ),
            },
        }
    } else if move_shape(g) == 1 {
        match decode_register(b[1]) {
            Err(id) => Err(DecodeError::InvalidRegister(Operand::Source, id)),
            Ok(s) => {
                let a = le32(b[2], b[3], b[4], b[5]);
                let m = if w == 0 {
                    Move::RegToMem8(s, a)
                } else if w == 1 {
                    Move::RegToMem16(s, a)
                } else {
                    Move::RegToMem32(s, a)
                };
                Ok(ParsedInstruction { instr: Instruction::Move(m), delta_ip: 6 })
            },
        }
    } else if move_shape(g) == 2 {
        let a = le32(b[1], b[2], b[3], b[4]);
        match decode_register(b[5]) {
            Err(id) => Err(DecodeError::InvalidRegister(Operand::Destination, id)),
            Ok(d) => {
                let m = if w == 0 {
                    Move::MemToReg8(a, d)
                } else if w == 1 {
                    Move::MemToReg16(a, d)
                } else {
                    Move::MemToReg32(a, d)
                };
                Ok(ParsedInstruction { instr: Instruction::Move(m), delta_ip: 6 })
            },
        }
    } else {
        let s = le32(b[1], b[2], b[3], b[4]);
        let d = le32(b[5], b[6], b[7], b[8]);
        let m = if w == 0 {
            Move::MemToMem8(s, d)
        } else if w == 1 {
            Move::MemToMem16(s, d)
        } else {
            Move::MemToMem32(s, d)
        };
        Ok(ParsedInstruction { instr: Instruction::Move(m), delta_ip: 9 })
    }
}

/// What the bytes `b` decode to as a whole instruction, from its group byte on.
pub open spec fn decode_instruction(b: Seq<u8>) -> Result<ParsedInstruction, DecodeError> {
    if b[0] == 0 {
        Ok(ParsedInstruction { instr: Instruction::Halt, delta_ip: 1 })
    } else if b[0] == 1 {
        match decode_move(b.drop_first()) {
            Ok(p) => Ok(ParsedInstruction { instr: p.instr, delta_ip: (p.delta_ip + 1) as u32 }),
            Err(e) => Err(e),
        }
    } else {
        Err(DecodeError::InvalidGroup(b[0]))
    }
}

/// A decoder that reads one item from a reader.
pub trait ReadMem {
    /// The most bytes that one item takes.
    spec fn max_len() -> nat;

    /// What the bytes `b` decode to.
    spec fn decoded(b: Seq<u8>) -> Result<ParsedInstruction, DecodeError>;

    /// Decodes one item from the bytes ahead of `iter`.
    fn read<I: MemIter>(iter: I) -> (r: Result<ParsedInstruction, DecodeError>)
        requires
            iter.well_formed(),
            iter.consumed() + Self::max_len() <= usize::MAX,
        ensures
            r == Self::decoded(bytes_ahead(&iter, Self::max_len())),
    ;
}

impl ReadMem for Instruction {
    open spec fn max_len() -> nat {
        MAX_INSTR_LEN as nat
    }

    open spec fn decoded(b: Seq<u8>) -> Result<ParsedInstruction, DecodeError> {
        decode_instruction(b)
    }

    fn read<I: MemIter>(iter: I) -> (r: Result<ParsedInstruction, DecodeError>) {
        let mut iter = iter;
        let ghost b = bytes_ahead(&iter, MAX_INSTR_LEN as nat);
        let group_value = iter.next8();
        assert(group_value == b[0]);
        if group_value == 0x0 {
            Ok(ParsedInstruction { instr: Self::Halt, delta_ip: 1 })
        } else if group_value == 0x1 {
            proof {
                assert(bytes_ahead(&iter, (MAX_INSTR_LEN - 1) as nat) =~= b.drop_first());
            }
            match Move::read(iter) {
                Ok(parsed) => Ok(
                    ParsedInstruction { instr: parsed.instr, delta_ip: parsed.delta_ip + 1 },
                ),
                Err(e) => Err(e),
            }
        } else {
            Err(DecodeError::InvalidGroup(group_value))
        }
    }
}

impl ReadMem for Move {
    open spec fn max_len() -> nat {
        (MAX_INSTR_LEN - 1) as nat
    }

    open spec fn decoded(b: Seq<u8>) -> Result<ParsedInstruction, DecodeError> {
        decode_move(b)
    }

    fn read<I: MemIter>(iter: I) -> (r: Result<ParsedInstruction, DecodeError>) {
        let mut iter = iter;
        let ghost b = bytes_ahead(&iter, (MAX_INSTR_LEN - 1) as nat);
        let start = iter.travelled();
        let move_group = iter.next8();
        let width = (move_group & 0x30) >> 4;
        match (move_group & 0xC0) >> 6 {
            0 => {
                let operand_src = iter.next8();
                let operand_dest = iter.next8();
                assert(operand_src == b[1] && operand_dest == b[2]);
                let reg_src = match Register::try_from_id(operand_src) {
                    Ok(reg) => reg,
                    Err(id) => return Err(DecodeError::InvalidRegister(Operand::Source, id)),
                };
                let reg_dst = match Register::try_from_id(operand_dest) {
                    Ok(reg) => reg,
                    Err(id) => return Err(DecodeError::InvalidRegister(Operand::Destination, id)),
                };
                Ok(
                    ParsedInstruction {
                        instr: Instruction::Move(Self::RegToReg(reg_src, reg_dst)),
                        delta_ip: (iter.travelled() - start) as u32,
                    },
                )
            },
            1 => {
                let operand_src = iter.next8();
                assert(operand_src == b[1]);
                let reg_src = match Register::try_from_id(operand_src) {
                    Ok(reg) => reg,
                    Err(id) => return Err(DecodeError::InvalidRegister(Operand::Source, id)),
                };
                let addr_dst = iter.next32();
                assert(addr_dst == le32(b[2], b[3], b[4], b[5]));
                let move_instr = if width == 0 {
                    Self::RegToMem8(reg_src, addr_dst)
                } else if width == 1 {
                    Self::RegToMem16(reg_src, addr_dst)
                } else {
                    Self::RegToMem32(reg_src, addr_dst)
                };
                Ok(
                    ParsedInstruction {
                        instr: Instruction::Move(move_instr),
                        delta_ip: (iter.travelled() - start) as u32,
                    },
                )
            },
            2 => {
                let addr_src = iter.next32();
                assert(addr_src == le32(b[1], b[2], b[3], b[4]));
                let operand_dest = iter.next8();
                assert(operand_dest == b[5]);
                let reg_dst = match Register::try_from_id(operand_dest) {
                    Ok(reg) => reg,
                    Err(id) => return Err(DecodeError::InvalidRegister(Operand::Destination, id)),
                };
                let move_instr = if width == 0 {
                    Self::MemToReg8(addr_src, reg_dst)
                } else if width == 1 {
                    Self::MemToReg16(addr_src, reg_dst)
                } else {
                    Self::MemToReg32(addr_src, reg_dst)
                };
                Ok(
                    ParsedInstruction {
                        instr: Instruction::Move(move_instr),
                        delta_ip: (iter.travelled() - start) as u32,
                    },
                )
            },
            _ => {
                let addr_src = iter.next32();
                assert(addr_src == le32(b[1], b[2], b[3], b[4]));
                let addr_dst = iter.next32();
                assert(addr_dst == le32(b[5], b[6], b[7], b[8]));
                let move_instr = if width == 0 {
                    Self::MemToMem8(addr_src, addr_dst)
                } else if width == 1 {
                    Self::MemToMem16(addr_src, addr_dst)
                } else {
                    Self::MemToMem32(addr_src, addr_dst)
                };
                Ok(
                    ParsedInstruction {
                        instr: Instruction::Move(move_instr),
                        delta_ip: (iter.travelled() - start) as u32,
                    },
                )
            },
        }
    }
}

/// The id byte of an operand register in the encoding. The instruction
/// pointer has no id; it gets one that decodes to no register.
pub open spec fn register_id(r: Register) -> u8 {
    match r {
        Register::A => 0,
        Register::B => 1,
        Register::X => 2,
        Register::Y => 3,
        Register::Ip => 4,
    }
}

/// Whether every register operand of `i` has an id in the encoding.
pub open spec fn encodable(i: Instruction) -> bool {
    match i {
        Instruction::Halt => true,
        Instruction::Move(m) => match m {
            Move::RegToReg(s, d) => s != Register::Ip && d != Register::Ip,
            Move::RegToMem32(s, _) => s != Register::Ip,
            Move::RegToMem16(s, _) => s != Register::Ip,
            Move::RegToMem8(s, _) => s != Register::Ip,
            Move::MemToReg32(_, d) => d != Register::Ip,
            Move::MemToReg16(_, d) => d != Register::Ip,
            Move::MemToReg8(_, d) => d != Register::Ip,
            _ => true,
        },
    }
}

/// The four bytes of `a`, low byte first.
pub open spec fn le32_bytes(a: u32) -> Seq<u8> {
    seq![a as u8, (a >> 8) as u8, (a >> 16) as u8, (a >> 24) as u8]
}

/// The bytes that encode the move `m`, from its move-group byte on. The
/// move-group byte holds the shape in bits 6 and 7 and the width code in bits
/// 4 and 5 (0 for 8 bits, 1 for 16, 2 for 32); its low bits are zero.
pub open spec fn encode_move(m: Move) -> Seq<u8> {
    match m {
        Move::RegToReg(s, d) => seq![0x00u8, register_id(s), register_id(d)],
        Move::RegToMem8(s, a) => seq![0x40u8, register_id(s)] + le32_bytes(a),
        Move::RegToMem16(s, a) => seq![0x50u8, register_id(s)] + le32_bytes(a),
        Move::RegToMem32(s, a) => seq![0x60u8, register_id(s)] + le32_bytes(a),
        Move::MemToReg8(a, d) => seq![0x80u8] + le32_bytes(a) + seq![register_id(d)],
        Move::MemToReg16(a, d) => seq![0x90u8] + le32_bytes(a) + seq![register_id(d)],
        Move::MemToReg32(a, d) => seq![0xA0u8] + le32_bytes(a) + seq![register_id(d)],
        Move::MemToMem8(s, d) => seq![0xC0u8] + le32_bytes(s) + le32_bytes(d),
        Move::MemToMem16(s, d) => seq![0xD0u8] + le32_bytes(s) + le32_bytes(d),
        Move::MemToMem32(s, d) => seq![0xE0u8] + le32_bytes(s) + le32_bytes(d),
    }
}

/// The bytes that encode `i`: a group byte, 0 for a halt and 1 for a move,
/// then the body of a move.
pub open spec fn encode(i: Instruction) -> Seq<u8> {
    match i {
        Instruction::Halt => seq![0x00u8],
        Instruction::Move(m) => seq![0x01u8] + encode_move(m),
    }
}

proof fn lemma_le32_of_bytes(a: u32)
    by (bit_vector)
    ensures
        le32(a as u8, (a >> 8) as u8, (a >> 16) as u8, (a >> 24) as u8) == a,
{
}

proof fn lemma_move_group_fields()
    by (bit_vector)
    ensures
        move_shape(0x00) == 0,
        move_shape(0x40) == 1 && move_width(0x40) == 0,
        move_shape(0x50) == 1 && move_width(0x50) == 1,
        move_shape(0x60) == 1 && move_width(0x60) == 2,
        move_shape(0x80) == 2 && move_width(0x80) == 0,
        move_shape(0x90) == 2 && move_width(0x90) == 1,
        move_shape(0xA0) == 2 && move_width(0xA0) == 2,
        move_shape(0xC0) == 3 && move_width(0xC0) == 0,
        move_shape(0xD0) == 3 && move_width(0xD0) == 1,
        move_shape(0xE0) == 3 && move_width(0xE0) == 2,
{
}

/// Bytes that begin with the encoding of an instruction whose registers all
/// have ids decode to that instruction, with a size equal to the length of
/// the encoding.
pub proof fn lemma_decode_encoded(i: Instruction, b: Seq<u8>)
    requires
        encodable(i),
        encode(i).len() <= b.len(),
        b.subrange(0, encode(i).len() as int) == encode(i),
    ensures
        decode_instruction(b) == Ok::<ParsedInstruction, DecodeError>(
            ParsedInstruction { instr: i, delta_ip: encode(i).len() as u32 },
        ),
{
    let e = encode(i);
    assert forall|k: int| 0 <= k < e.len() implies b[k] == e[k] by {
        assert(b.subrange(0, e.len() as int)[k] == b[k]);
    }
    lemma_move_group_fields();
    match i {
        Instruction::Halt => {},
        Instruction::Move(m) => {
            let t = b.drop_first();
            let em = encode_move(m);
            assert forall|k: int| 0 <= k < em.len() implies t[k] == em[k] by {
                assert(e[k + 1] == em[k]);
            }
            match m {
                Move::RegToMem8(_, a) => lemma_le32_of_bytes(a),
                Move::RegToMem16(_, a) => lemma_le32_of_bytes(a),
                Move::RegToMem32(_, a) => lemma_le32_of_bytes(a),
                Move::MemToReg8(a, _) => lemma_le32_of_bytes(a),
                Move::MemToReg16(a, _) => lemma_le32_of_bytes(a),
                Move::MemToReg32(a, _) => lemma_le32_of_bytes(a),
                Move::MemToMem8(s, d) => {
                    lemma_le32_of_bytes(s);
                    lemma_le32_of_bytes(d);
                },
                Move::MemToMem16(s, d) => {
                    lemma_le32_of_bytes(s);
                    lemma_le32_of_bytes(d);
                },
                Move::MemToMem32(s, d) => {
                    lemma_le32_of_bytes(s);
                    lemma_le32_of_bytes(d);
                },
                Move::RegToReg(_, _) => {},
            }
        },
    }
}

} // verus!
