use cpu_core::cpu::CPU;
use cpu_core::cpu::CpuError;
use cpu_core::flags::FlagsRegister;
use cpu_core::instruction::ArithmeticTarget;
use cpu_core::instruction::IncDecTarget;
use cpu_core::instruction::Instruction;
use cpu_core::memory::MemoryBus;
use cpu_core::registers::Registers;

fn flags(zero: bool, subtract: bool, half_carry: bool, carry: bool) -> FlagsRegister {
    FlagsRegister { zero, subtract, half_carry, carry }
}

#[test]
fn flags_round_trip_all_sixteen_combinations() {
    for bits in 0u8..16u8 {
        let f = flags(bits & 8 != 0, bits & 4 != 0, bits & 2 != 0, bits & 1 != 0);
        assert_eq!(FlagsRegister::from_byte(f.to_byte()), f);
    }
}

#[test]
fn flags_byte_mask_all_bytes() {
    for b in 0u16..256u16 {
        let b = b as u8;
        assert_eq!(FlagsRegister::from_byte(b).to_byte(), b & 0xF0);
    }
}

#[test]
fn flags_byte_layout_exact() {
    assert_eq!(flags(true, false, false, false).to_byte(), 0x80);
    assert_eq!(flags(false, true, false, false).to_byte(), 0x40);
    assert_eq!(flags(false, false, true, false).to_byte(), 0x20);
    assert_eq!(flags(false, false, false, true).to_byte(), 0x10);
    assert_eq!(flags(true, true, true, true).to_byte(), 0xF0);
    assert_eq!(flags(false, false, false, false).to_byte(), 0x00);
}

#[test]
fn pair_round_trip_bc_de_hl() {
    let samples: [u16; 6] = [0x0000, 0x0001, 0x00FF, 0x0100, 0xABCD, 0xFFFF];
    for &v in samples.iter() {
        let mut regs = Registers::new();
        regs.set_bc(v);
        assert_eq!(regs.get_bc(), v);
        regs.set_de(v);
        assert_eq!(regs.get_de(), v);
        regs.set_hl(v);
        assert_eq!(regs.get_hl(), v);
    }
}

#[test]
fn pair_write_through_to_bytes() {
    let mut regs = Registers::new();
    regs.set_bc(0xABCD);
    assert_eq!(regs.b, 0xAB);
    assert_eq!(regs.c, 0xCD);
    regs.b = 0x12;
    assert_eq!(regs.get_bc(), 0x12CD);
}

#[test]
fn pair_round_trip_af_flag_bits_only() {
    let samples: [u16; 4] = [0x0000, 0x12F0, 0xFF50, 0xABB0];
    for &v in samples.iter() {
        let mut regs = Registers::new();
        regs.set_af(v);
        assert_eq!(regs.get_af(), v);
    }
}

#[test]
fn pair_af_low_nibble_collapses() {
    let mut regs = Registers::new();
    regs.set_af(0x12FF);
    assert_eq!(regs.a, 0x12);
    assert_eq!(regs.f, flags(true, true, true, true));
    assert_eq!(regs.get_af(), 0x12F0);
}

#[test]
fn add_half_carry_case() {
    let mut cpu = CPU::new();
    cpu.registers.a = 0x0F;
    cpu.registers.c = 0x01;
    cpu.execute(Instruction::Add(ArithmeticTarget::C));
    assert_eq!(cpu.registers.a, 0x10);
    assert_eq!(cpu.registers.f, flags(false, false, true, false));
}

#[test]
fn add_carry_and_zero_case() {
    let mut cpu = CPU::new();
    cpu.registers.a = 0xFF;
    cpu.registers.c = 0x01;
    cpu.execute(Instruction::Add(ArithmeticTarget::C));
    assert_eq!(cpu.registers.a, 0x00);
    assert_eq!(cpu.registers.f, flags(true, false, true, true));
}

#[test]
fn add_zero_plus_zero_case() {
    let mut cpu = CPU::new();
    cpu.registers.a = 0x00;
    cpu.registers.c = 0x00;
    cpu.execute(Instruction::Add(ArithmeticTarget::C));
    assert_eq!(cpu.registers.a, 0x00);
    assert_eq!(cpu.registers.f, flags(true, false, false, false));
}

#[test]
fn add_reads_every_target() {
    let mut cpu = CPU::new();
    cpu.registers.a = 1;
    cpu.registers.b = 2;
    cpu.registers.c = 3;
    cpu.registers.d = 4;
    cpu.registers.e = 5;
    cpu.registers.h = 6;
    cpu.registers.l = 7;
    cpu.execute(Instruction::Add(ArithmeticTarget::B));
    assert_eq!(cpu.registers.a, 3);
    cpu.execute(Instruction::Add(ArithmeticTarget::C));
    assert_eq!(cpu.registers.a, 6);
    cpu.execute(Instruction::Add(ArithmeticTarget::D));
    assert_eq!(cpu.registers.a, 10);
    cpu.execute(Instruction::Add(ArithmeticTarget::E));
    assert_eq!(cpu.registers.a, 15);
    cpu.execute(Instruction::Add(ArithmeticTarget::H));
    assert_eq!(cpu.registers.a, 21);
    cpu.execute(Instruction::Add(ArithmeticTarget::L));
    assert_eq!(cpu.registers.a, 28);
    cpu.execute(Instruction::Add(ArithmeticTarget::A));
    assert_eq!(cpu.registers.a, 56);
}

#[test]
fn inc_sixteen_bit_wraps_without_flag_effect() {
    let mut cpu = CPU::new();
    cpu.registers.set_bc(0xFFFF);
    let before = flags(true, false, true, true);
    cpu.registers.f = before;
    cpu.execute(Instruction::Inc(IncDecTarget::BC));
    assert_eq!(cpu.registers.get_bc(), 0x0000);
    assert_eq!(cpu.registers.f, before);
}

#[test]
fn dec_sixteen_bit_wraps_without_flag_effect() {
    let mut cpu = CPU::new();
    cpu.registers.set_hl(0x0000);
    let before = flags(false, true, false, true);
    cpu.registers.f = before;
    cpu.execute(Instruction::Dec(IncDecTarget::HL));
    assert_eq!(cpu.registers.get_hl(), 0xFFFF);
    assert_eq!(cpu.registers.f, before);
}

#[test]
fn inc_dec_each_pair_exact() {
    let mut cpu = CPU::new();
    cpu.registers.set_bc(0x00FF);
    cpu.registers.set_de(0x1234);
    cpu.registers.set_hl(0xFF00);
    cpu.execute(Instruction::Inc(IncDecTarget::BC));
    cpu.execute(Instruction::Inc(IncDecTarget::DE));
    cpu.execute(Instruction::Inc(IncDecTarget::HL));
    assert_eq!(cpu.registers.get_bc(), 0x0100);
    assert_eq!(cpu.registers.get_de(), 0x1235);
    assert_eq!(cpu.registers.get_hl(), 0xFF01);
    cpu.execute(Instruction::Dec(IncDecTarget::BC));
    cpu.execute(Instruction::Dec(IncDecTarget::DE));
    cpu.execute(Instruction::Dec(IncDecTarget::HL));
    assert_eq!(cpu.registers.get_bc(), 0x00FF);
    assert_eq!(cpu.registers.get_de(), 0x1234);
    assert_eq!(cpu.registers.get_hl(), 0xFF00);
}

#[test]
fn pc_advances_by_one_byte_instruction() {
    let mut cpu = CPU::new();
    cpu.pc = 0x0100;
    cpu.bus.write_byte(0x0100, 0x81);
    assert_eq!(cpu.step(), Ok(()));
    assert_eq!(cpu.pc, 0x0101);
}

#[test]
fn pc_wraps_at_address_space_end() {
    let mut cpu = CPU::new();
    cpu.pc = 0xFFFF;
    cpu.bus.write_byte(0xFFFF, 0x81);
    assert_eq!(cpu.step(), Ok(()));
    assert_eq!(cpu.pc, 0x0000);
}

#[test]
fn execute_returns_next_pc_without_committing() {
    let mut cpu = CPU::new();
    cpu.pc = 0x0200;
    let next = cpu.execute(Instruction::Add(ArithmeticTarget::C));
    assert_eq!(next, 0x0201);
    assert_eq!(cpu.pc, 0x0200);
}

#[test]
fn decode_totality_over_all_bytes() {
    for b in 0u16..256u16 {
        let b = b as u8;
        let expected = match b {
            0x02 => Some(Instruction::Inc(IncDecTarget::BC)),
            0x13 => Some(Instruction::Inc(IncDecTarget::DE)),
            0x23 => Some(Instruction::Inc(IncDecTarget::HL)),
            0x0B => Some(Instruction::Dec(IncDecTarget::BC)),
            0x1B => Some(Instruction::Dec(IncDecTarget::DE)),
            0x2B => Some(Instruction::Dec(IncDecTarget::HL)),
            0x80 => Some(Instruction::Add(ArithmeticTarget::B)),
            0x81 => Some(Instruction::Add(ArithmeticTarget::C)),
            0x82 => Some(Instruction::Add(ArithmeticTarget::D)),
            0x83 => Some(Instruction::Add(ArithmeticTarget::E)),
            0x84 => Some(Instruction::Add(ArithmeticTarget::H)),
            0x85 => Some(Instruction::Add(ArithmeticTarget::L)),
            0x87 => Some(Instruction::Add(ArithmeticTarget::A)),
            _ => None,
        };
        assert_eq!(Instruction::from_byte(b), expected);
    }
}

#[test]
fn step_surfaces_decode_failure_with_address_and_opcode() {
    let mut cpu = CPU::new();
    cpu.pc = 0x0042;
    cpu.bus.write_byte(0x0042, 0xFF);
    let before_registers = cpu.registers;
    let r = cpu.step();
    assert_eq!(r, Err(CpuError::DecodeFailure { address: 0x0042, opcode: 0xFF }));
    assert_eq!(cpu.pc, 0x0042);
    assert_eq!(cpu.registers, before_registers);
}

#[test]
fn memory_read_write_full_range() {
    let mut bus = MemoryBus::new();
    assert_eq!(bus.read_byte(0x0000), 0x00);
    assert_eq!(bus.read_byte(0xFFFF), 0x00);
    bus.write_byte(0x0000, 0x11);
    bus.write_byte(0x1234, 0xAB);
    bus.write_byte(0xFFFF, 0xEE);
    assert_eq!(bus.read_byte(0x0000), 0x11);
    assert_eq!(bus.read_byte(0x1234), 0xAB);
    assert_eq!(bus.read_byte(0xFFFF), 0xEE);
    assert_eq!(bus.read_byte(0x1233), 0x00);
}

#[test]
fn end_to_end_two_increments() {
    let mut cpu = CPU::new();
    cpu.bus.write_byte(0x0000, 0x02);
    cpu.bus.write_byte(0x0001, 0x13);
    assert_eq!(cpu.registers.get_bc(), 0x0000);
    assert_eq!(cpu.registers.get_de(), 0x0000);
    assert_eq!(cpu.pc, 0x0000);
    assert_eq!(cpu.step(), Ok(()));
    assert_eq!(cpu.step(), Ok(()));
    assert_eq!(cpu.registers.get_bc(), 0x0001);
    assert_eq!(cpu.registers.get_de(), 0x0001);
    assert_eq!(cpu.pc, 0x0002);
}
