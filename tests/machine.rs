use nemu_core::cpu::{Register, MEM_SIZE};
use nemu_core::instr::{DecodeError, Instruction, Move, Operand};
use nemu_core::Machine;

fn load(machine: &mut Machine, at: usize, bytes: &[u8]) {
    for (k, b) in bytes.iter().enumerate() {
        machine.cpu.mem[at + k] = *b;
    }
}

#[test]
fn move_reg_to_reg() {
    let mut machine = Machine::new();
    let instr = Instruction::Move(Move::RegToReg(Register::A, Register::B));
    machine.cpu.registers.a = 42;
    machine.cpu.registers.b = 2;

    machine.cpu.do_instruction(instr);

    assert_eq!(machine.cpu.registers.a, machine.cpu.registers.b);
    assert_eq!(machine.cpu.registers.b, 42);
}

#[test]
fn move_reg_to_mem32() {
    let mut machine = Machine::new();
    let instr = Instruction::Move(Move::RegToMem32(Register::A, 0x0));
    machine.cpu.registers.a = 0x0403_0201;

    machine.cpu.do_instruction(instr);

    assert_eq!(machine.cpu.mem[0], 0x01);
    assert_eq!(machine.cpu.mem[1], 0x02);
    assert_eq!(machine.cpu.mem[2], 0x03);
    assert_eq!(machine.cpu.mem[3], 0x04);
}

#[test]
fn move_reg_to_mem16() {
    let mut machine = Machine::new();
    let instr = Instruction::Move(Move::RegToMem16(Register::A, 0x0));
    machine.cpu.registers.a = 0x0403_0201;

    machine.cpu.do_instruction(instr);

    assert_eq!(machine.cpu.mem[0], 0x01);
    assert_eq!(machine.cpu.mem[1], 0x02);
    assert_eq!(machine.cpu.mem[2], 0x00);
    assert_eq!(machine.cpu.mem[3], 0x00);
}

#[test]
fn move_reg_to_mem8() {
    let mut machine = Machine::new();
    let instr = Instruction::Move(Move::RegToMem8(Register::A, 0x0));
    machine.cpu.registers.a = 0x0403_0201;

    machine.cpu.do_instruction(instr);

    assert_eq!(machine.cpu.mem[0], 0x01);
    assert_eq!(machine.cpu.mem[1], 0x00);
    assert_eq!(machine.cpu.mem[2], 0x00);
    assert_eq!(machine.cpu.mem[3], 0x00);
}

#[test]
fn move_mem_to_reg32() {
    let mut machine = Machine::new();
    let instr = Instruction::Move(Move::MemToReg32(0, Register::A));
    machine.cpu.registers.a = 0xFFFF_FFFF;

    machine.cpu.mem[0] = 0x01;
    machine.cpu.mem[1] = 0x02;
    machine.cpu.mem[2] = 0x03;
    machine.cpu.mem[3] = 0x04;

    machine.cpu.do_instruction(instr);

    assert_eq!(machine.cpu.registers.a, 0x0403_0201);
}

#[test]
fn move_mem_to_reg16() {
    let mut machine = Machine::new();
    let instr = Instruction::Move(Move::MemToReg16(0, Register::A));
    machine.cpu.registers.a = 0xFFFF_FFFF;

    machine.cpu.mem[0] = 0x01;
    machine.cpu.mem[1] = 0x02;
    machine.cpu.mem[2] = 0x03;
    machine.cpu.mem[3] = 0x04;

    machine.cpu.do_instruction(instr);

    assert_eq!(machine.cpu.registers.a, 0xFFFF_0201);
}

#[test]
fn move_mem_to_reg8() {
    let mut machine = Machine::new();
    let instr = Instruction::Move(Move::MemToReg8(0, Register::A));
    machine.cpu.registers.a = 0xFFFF_FFFF;

    machine.cpu.mem[0] = 0x01;
    machine.cpu.mem[1] = 0x02;
    machine.cpu.mem[2] = 0x03;
    machine.cpu.mem[3] = 0x04;

    machine.cpu.do_instruction(instr);

    assert_eq!(machine.cpu.registers.a, 0xFFFF_FF01);
}

#[test]
fn move_mem_to_mem32() {
    let mut machine = Machine::new();
    let instr = Instruction::Move(Move::MemToMem32(0x0, 0x4));

    machine.cpu.mem[0] = 0x01;
    machine.cpu.mem[1] = 0x02;
    machine.cpu.mem[2] = 0x03;
    machine.cpu.mem[3] = 0x04;

    machine.cpu.do_instruction(instr);

    assert_eq!(machine.cpu.mem[4], 0x01);
    assert_eq!(machine.cpu.mem[5], 0x02);
    assert_eq!(machine.cpu.mem[6], 0x03);
    assert_eq!(machine.cpu.mem[7], 0x04);
}

#[test]
fn move_mem_to_mem16() {
    let mut machine = Machine::new();
    let instr = Instruction::Move(Move::MemToMem16(0x0, 0x4));

    machine.cpu.mem[0] = 0x01;
    machine.cpu.mem[1] = 0x02;
    machine.cpu.mem[2] = 0x03;
    machine.cpu.mem[3] = 0x04;

    machine.cpu.do_instruction(instr);

    assert_eq!(machine.cpu.mem[4], 0x01);
    assert_eq!(machine.cpu.mem[5], 0x02);
    assert_eq!(machine.cpu.mem[6], 0x00);
    assert_eq!(machine.cpu.mem[7], 0x00);
}

#[test]
fn move_mem_to_mem8() {
    let mut machine = Machine::new();
    let instr = Instruction::Move(Move::MemToMem8(0x0, 0x4));

    machine.cpu.mem[0] = 0x01;
    machine.cpu.mem[1] = 0x02;
    machine.cpu.mem[2] = 0x03;
    machine.cpu.mem[3] = 0x04;

    machine.cpu.do_instruction(instr);

    assert_eq!(machine.cpu.mem[4], 0x01);
    assert_eq!(machine.cpu.mem[5], 0x00);
    assert_eq!(machine.cpu.mem[6], 0x00);
    assert_eq!(machine.cpu.mem[7], 0x00);
}

#[test]
fn mem_wrap_around_proper_delta_ip() {
    let mut machine = Machine::new();

    machine.cpu.registers.instruction_pointer = 0xFFFF_FFFF;
    machine.run_cycle().expect("a halt decodes");

    assert_eq!(machine.cpu.registers.instruction_pointer, 0);
}

#[test]
fn cycle_reg_to_reg_scenario() {
    let mut machine = Machine::new();
    machine.cpu.registers.a = 42;
    machine.cpu.registers.b = 2;
    load(&mut machine, 0, &[0x1, 0x00, 0x00, 0x01]);

    assert_eq!(machine.run_cycle(), Ok(()));

    assert_eq!(machine.cpu.registers.b, 42);
    assert_eq!(machine.cpu.registers.a, 42);
    assert_eq!(machine.cpu.registers.instruction_pointer, 4);
}

#[test]
fn cycle_reg_to_mem32_scenario() {
    let mut machine = Machine::new();
    machine.cpu.registers.a = 0x0403_0201;
    machine.cpu.registers.instruction_pointer = 0x100;
    load(&mut machine, 0x100, &[0x1, 0b0110_0000, 0x00, 0x00, 0x00, 0x00, 0x00]);

    assert_eq!(machine.run_cycle(), Ok(()));

    assert_eq!(&machine.cpu.mem[0..4], &[0x01, 0x02, 0x03, 0x04]);
    assert_eq!(machine.cpu.registers.instruction_pointer, 0x107);
}

#[test]
fn cycle_mem_to_reg16_scenario() {
    let mut machine = Machine::new();
    load(&mut machine, 0, &[0x01, 0x02, 0x03, 0x04]);
    machine.cpu.registers.a = 0xFFFF_FFFF;
    machine.cpu.registers.instruction_pointer = 0x100;
    load(&mut machine, 0x100, &[0x1, 0b1001_0000, 0x00, 0x00, 0x00, 0x00, 0x00]);

    assert_eq!(machine.run_cycle(), Ok(()));

    assert_eq!(machine.cpu.registers.a, 0xFFFF_0201);
    assert_eq!(machine.cpu.registers.instruction_pointer, 0x107);
}

#[test]
fn cycle_invalid_register_changes_nothing() {
    let mut machine = Machine::new();
    machine.cpu.registers.a = 7;
    machine.cpu.registers.b = 9;
    load(&mut machine, 0, &[0x1, 0x00, 0x07, 0x00]);

    let r = machine.run_cycle();

    assert_eq!(r, Err(DecodeError::InvalidRegister(Operand::Source, 0x07)));
    assert_eq!(machine.cpu.registers.instruction_pointer, 0);
    assert_eq!(machine.cpu.registers.a, 7);
    assert_eq!(machine.cpu.registers.b, 9);
    assert_eq!(&machine.cpu.mem[0..4], &[0x1, 0x00, 0x07, 0x00]);

    let again = machine.run_cycle();
    assert_eq!(again, r);
    assert_eq!(machine.cpu.registers.instruction_pointer, 0);
}

#[test]
fn cycle_invalid_group_changes_nothing() {
    let mut machine = Machine::new();
    machine.cpu.registers.instruction_pointer = 0x20;
    machine.cpu.mem[0x20] = 0x05;

    assert_eq!(machine.run_cycle(), Err(DecodeError::InvalidGroup(0x05)));
    assert_eq!(machine.cpu.registers.instruction_pointer, 0x20);
}

#[test]
fn halt_changes_nothing_but_ip() {
    let mut machine = Machine::new();
    machine.cpu.registers.a = 1;
    machine.cpu.registers.b = 2;
    machine.cpu.registers.x = 3;
    machine.cpu.registers.y = 4;
    machine.cpu.registers.instruction_pointer = 0x40;
    machine.cpu.mem[0x41] = 0xAB;

    machine.cpu.do_instruction(Instruction::Halt);
    assert_eq!(machine.cpu.registers.instruction_pointer, 0x40);

    assert_eq!(machine.run_cycle(), Ok(()));
    assert_eq!(machine.cpu.registers.instruction_pointer, 0x41);
    assert_eq!(machine.cpu.registers.a, 1);
    assert_eq!(machine.cpu.registers.b, 2);
    assert_eq!(machine.cpu.registers.x, 3);
    assert_eq!(machine.cpu.registers.y, 4);
    assert_eq!(machine.cpu.mem[0x40], 0x00);
    assert_eq!(machine.cpu.mem[0x41], 0xAB);
}

#[test]
fn narrow_register_writes_keep_high_bits() {
    let mut machine = Machine::new();
    machine.cpu.registers.x = 0x1234_5678;
    machine.cpu.registers.y = 0x1234_5678;

    let v: u32 = 0xABCD_EF99;
    machine.cpu.set_reg8(Register::X, v as u8);
    assert_eq!(machine.cpu.get_reg(Register::X), (0x1234_5678 & 0xFFFF_FF00) | (v & 0xFF));
    assert_eq!(machine.cpu.get_reg(Register::X), 0x1234_5699);

    machine.cpu.set_reg16(Register::Y, v as u16);
    assert_eq!(machine.cpu.get_reg(Register::Y), (0x1234_5678 & 0xFFFF_0000) | (v & 0xFFFF));
    assert_eq!(machine.cpu.get_reg(Register::Y), 0x1234_EF99);

    machine.cpu.set_reg32(Register::A, v);
    assert_eq!(machine.cpu.get_reg(Register::A), v);
    assert_eq!(machine.cpu.get_reg(Register::X), 0x1234_5699);
}

#[test]
fn memory_accesses_wrap_at_top_of_address_space() {
    let mut machine = Machine::new();
    machine.cpu.write_mem32(0xFFFF_FFFE, 0x0403_0201);
    let top = MEM_SIZE - 2;
    assert_eq!(machine.cpu.mem[top], 0x01);
    assert_eq!(machine.cpu.mem[top + 1], 0x02);
    assert_eq!(machine.cpu.mem[0], 0x03);
    assert_eq!(machine.cpu.mem[1], 0x04);
    assert_eq!(machine.cpu.read_mem32(0xFFFF_FFFE), 0x0403_0201);
    assert_eq!(machine.cpu.read_mem16(0xFFFF_FFFF), 0x0302);
    assert_eq!(machine.cpu.read_mem8(MEM_SIZE as u32), 0x03);
}

#[test]
fn mem_to_mem_across_the_end() {
    let mut machine = Machine::new();
    machine.cpu.write_mem16(10, 0xBEEF);
    machine.cpu.do_instruction(Instruction::Move(Move::MemToMem16(10, (MEM_SIZE - 1) as u32)));
    assert_eq!(machine.cpu.mem[MEM_SIZE - 1], 0xEF);
    assert_eq!(machine.cpu.mem[0], 0xBE);
}

#[test]
fn decode_at_top_of_memory() {
    let mut machine = Machine::new();
    machine.cpu.registers.a = 5;
    let ip = (MEM_SIZE - 2) as u32;
    machine.cpu.registers.instruction_pointer = ip;
    machine.cpu.mem[MEM_SIZE - 2] = 0x1;
    machine.cpu.mem[MEM_SIZE - 1] = 0x0;
    machine.cpu.mem[0] = 0x0;
    machine.cpu.mem[1] = 0x2;

    assert_eq!(machine.run_cycle(), Ok(()));
    assert_eq!(machine.cpu.registers.x, 5);
    assert_eq!(machine.cpu.registers.instruction_pointer, ip + 4);
}

#[test]
fn snapshot_shows_next_instruction() {
    let mut machine = Machine::new();
    machine.cpu.registers.b = 0x77;
    load(&mut machine, 0, &[0x1, 0x00, 0x01, 0x03]);
    let snap = machine.snapshot();
    assert_eq!(snap.next_instr, Some(Instruction::Move(Move::RegToReg(Register::B, Register::Y))));
    assert_eq!(snap.registers.b, 0x77);
    assert_eq!(snap.mem_block.len(), MEM_SIZE);
    assert_eq!(snap.mem_block[2], 0x01);

    machine.cpu.mem[0] = 0x09;
    assert_eq!(machine.snapshot().next_instr, None);
}
