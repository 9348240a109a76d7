use gb_core::bus::MemoryBus;
use gb_core::cpu::CPU;

/// Loads `program` at address 0 and returns a fresh processor and bus.
fn machine(program: &[u8]) -> (CPU, MemoryBus) {
    let mut bus = MemoryBus::new();
    for (i, byte) in program.iter().enumerate() {
        bus.write_byte(i as u16, *byte);
    }
    (CPU::new(), bus)
}

#[test]
fn power_on_state_is_zero() {
    let cpu = CPU::new();
    assert_eq!(cpu.pc, 0);
    assert_eq!(cpu.sp, 0);
    assert_eq!(cpu.registers.get_af(), 0);
    assert_eq!(cpu.registers.get_bc(), 0);
    assert_eq!(cpu.registers.get_de(), 0);
    assert_eq!(cpu.registers.get_hl(), 0);
}

#[test]
fn add_half_carry() {
    // ADD A, B
    let (mut cpu, mut bus) = machine(&[0x80]);
    cpu.registers.a = 0x0F;
    cpu.registers.b = 0x01;
    cpu.step(&mut bus);
    assert_eq!(cpu.registers.a, 0x10);
    assert!(cpu.registers.f.half_carry);
    assert!(!cpu.registers.f.carry);
    assert!(!cpu.registers.f.zero);
    assert!(!cpu.registers.f.subtract);
    assert_eq!(cpu.pc, 1);
}

#[test]
fn add_overflow_to_zero() {
    let (mut cpu, mut bus) = machine(&[0x80]);
    cpu.registers.a = 0xFF;
    cpu.registers.b = 0x01;
    cpu.step(&mut bus);
    assert_eq!(cpu.registers.a, 0x00);
    assert!(cpu.registers.f.zero);
    assert!(cpu.registers.f.carry);
    assert!(cpu.registers.f.half_carry);
}

#[test]
fn add_a_to_itself() {
    // ADD A, A
    let (mut cpu, mut bus) = machine(&[0x87]);
    cpu.registers.a = 0x88;
    cpu.step(&mut bus);
    assert_eq!(cpu.registers.a, 0x10);
    assert!(cpu.registers.f.carry);
    assert!(cpu.registers.f.half_carry);
    assert!(!cpu.registers.f.zero);
}

#[test]
fn xor_self_clears_a() {
    for x in [0x00u8, 0x01, 0x5A, 0x80, 0xFF] {
        let (mut cpu, mut bus) = machine(&[0xAF]);
        cpu.registers.a = x;
        cpu.registers.f.carry = true;
        cpu.registers.f.half_carry = true;
        cpu.registers.f.subtract = true;
        cpu.step(&mut bus);
        assert_eq!(cpu.registers.a, 0x00);
        assert!(cpu.registers.f.zero);
        assert!(!cpu.registers.f.subtract);
        assert!(!cpu.registers.f.half_carry);
        assert!(!cpu.registers.f.carry);
    }
}

#[test]
fn xor_with_register() {
    // XOR A, C
    let (mut cpu, mut bus) = machine(&[0xA9]);
    cpu.registers.a = 0b1100_1010;
    cpu.registers.c = 0b1010_0110;
    cpu.step(&mut bus);
    assert_eq!(cpu.registers.a, 0b0110_1100);
    assert!(!cpu.registers.f.zero);
}

#[test]
fn inc_wraps_to_zero() {
    // INC B
    let (mut cpu, mut bus) = machine(&[0x04]);
    cpu.registers.b = 0xFF;
    cpu.registers.f.carry = true;
    cpu.step(&mut bus);
    assert_eq!(cpu.registers.b, 0x00);
    assert!(cpu.registers.f.zero);
    assert!(cpu.registers.f.half_carry);
    assert!(!cpu.registers.f.subtract);
    assert!(cpu.registers.f.carry);
}

#[test]
fn dec_wraps_to_ff() {
    // DEC B
    let (mut cpu, mut bus) = machine(&[0x05]);
    cpu.registers.b = 0x00;
    cpu.step(&mut bus);
    assert_eq!(cpu.registers.b, 0xFF);
    assert!(!cpu.registers.f.zero);
    assert!(cpu.registers.f.half_carry);
    assert!(cpu.registers.f.subtract);
    assert!(!cpu.registers.f.carry);
}

#[test]
fn dec_to_zero_keeps_carry() {
    // DEC A
    let (mut cpu, mut bus) = machine(&[0x3D]);
    cpu.registers.a = 0x01;
    cpu.registers.f.carry = true;
    cpu.step(&mut bus);
    assert_eq!(cpu.registers.a, 0x00);
    assert!(cpu.registers.f.zero);
    assert!(!cpu.registers.f.half_carry);
    assert!(cpu.registers.f.carry);
}

#[test]
fn inc16_and_dec16_wrap() {
    // INC BC; DEC DE; INC SP; DEC HL
    let (mut cpu, mut bus) = machine(&[0x03, 0x1B, 0x33, 0x2B]);
    cpu.registers.set_bc(0xFFFF);
    cpu.registers.set_de(0x0000);
    cpu.sp = 0x00FF;
    cpu.registers.set_hl(0x0100);
    for _ in 0..4 {
        cpu.step(&mut bus);
    }
    assert_eq!(cpu.registers.get_bc(), 0x0000);
    assert_eq!(cpu.registers.get_de(), 0xFFFF);
    assert_eq!(cpu.sp, 0x0100);
    assert_eq!(cpu.registers.get_hl(), 0x00FF);
    assert!(!cpu.registers.f.zero);
}

#[test]
fn ld16_reads_little_endian_immediate() {
    // LD HL, 0x9FFF; LD SP, 0xFFFE
    let (mut cpu, mut bus) = machine(&[0x21, 0xFF, 0x9F, 0x31, 0xFE, 0xFF]);
    cpu.step(&mut bus);
    assert_eq!(cpu.registers.get_hl(), 0x9FFF);
    assert_eq!(cpu.pc, 3);
    cpu.step(&mut bus);
    assert_eq!(cpu.sp, 0xFFFE);
    assert_eq!(cpu.pc, 6);
}

#[test]
fn store_a_and_decrement_hl() {
    // LD (HL-), A
    let (mut cpu, mut bus) = machine(&[0x32]);
    cpu.registers.a = 0x42;
    cpu.registers.set_hl(0xC000);
    cpu.step(&mut bus);
    assert_eq!(bus.read_byte(0xC000), 0x42);
    assert_eq!(cpu.registers.get_hl(), 0xBFFF);
}

#[test]
fn store_a_into_video_memory() {
    let (mut cpu, mut bus) = machine(&[0x32]);
    cpu.registers.a = 0x99;
    cpu.registers.set_hl(0x9FFF);
    cpu.step(&mut bus);
    assert_eq!(bus.read_byte(0x9FFF), 0x99);
    assert_eq!(cpu.registers.get_hl(), 0x9FFE);
}

#[test]
fn jp_taken_and_not_taken() {
    // JP NZ, 0x1234
    let (mut cpu, mut bus) = machine(&[0xC2, 0x34, 0x12]);
    cpu.step(&mut bus);
    assert_eq!(cpu.pc, 0x1234);

    let (mut cpu, mut bus) = machine(&[0xC2, 0x34, 0x12]);
    cpu.registers.f.zero = true;
    cpu.step(&mut bus);
    assert_eq!(cpu.pc, 0x0003);
}

#[test]
fn jr_backward_offset() {
    // at 0x0010: JR -2 jumps back to itself
    let mut bus = MemoryBus::new();
    bus.write_byte(0x10, 0x18);
    bus.write_byte(0x11, 0xFE);
    let mut cpu = CPU::new();
    cpu.pc = 0x10;
    cpu.step(&mut bus);
    assert_eq!(cpu.pc, 0x10);
}

#[test]
fn jr_forward_offset() {
    let (mut cpu, mut bus) = machine(&[0x18, 0x05]);
    cpu.step(&mut bus);
    assert_eq!(cpu.pc, 0x07);
}

#[test]
fn call_and_return() {
    // CALL 0x0004; NOP; XOR A; RET
    for a in [0x00u8, 0x37, 0xFF] {
        let (mut cpu, mut bus) = machine(&[0xCD, 0x04, 0x00, 0x00, 0xAF, 0xC9]);
        cpu.sp = 0xFFFE;
        cpu.registers.a = a;
        cpu.step(&mut bus);
        assert_eq!(cpu.pc, 0x0004);
        assert_eq!(cpu.sp, 0xFFFC);
        assert_eq!(bus.read_word(0xFFFC), 0x0003);
        cpu.step(&mut bus);
        cpu.step(&mut bus);
        assert_eq!(cpu.pc, 0x0003);
        assert_eq!(cpu.sp, 0xFFFE);
        assert_eq!(cpu.registers.a, 0x00);
    }
}

#[test]
fn conditional_call_not_taken() {
    // CALL Z, 0x0040 with zero clear
    let (mut cpu, mut bus) = machine(&[0xCC, 0x40, 0x00]);
    cpu.sp = 0xFFFE;
    cpu.step(&mut bus);
    assert_eq!(cpu.pc, 0x0003);
    assert_eq!(cpu.sp, 0xFFFE);
}

#[test]
fn conditional_ret() {
    // RET NZ with zero set stays; RET Z pops
    let (mut cpu, mut bus) = machine(&[0xC0, 0xC8]);
    cpu.sp = 0xFFF0;
    bus.write_word(0xFFF0, 0x0200);
    cpu.registers.f.zero = true;
    cpu.step(&mut bus);
    assert_eq!(cpu.pc, 1);
    assert_eq!(cpu.sp, 0xFFF0);
    cpu.step(&mut bus);
    assert_eq!(cpu.pc, 0x0200);
    assert_eq!(cpu.sp, 0xFFF2);
}

#[test]
fn push_pop_pairs() {
    // PUSH BC; POP DE; PUSH AF; POP HL
    let (mut cpu, mut bus) = machine(&[0xC5, 0xD1, 0xF5, 0xE1]);
    cpu.sp = 0xD000;
    cpu.registers.set_bc(0xBEEF);
    cpu.registers.a = 0x12;
    cpu.registers.f.zero = true;
    cpu.registers.f.carry = true;
    cpu.step(&mut bus);
    assert_eq!(cpu.sp, 0xCFFE);
    assert_eq!(bus.read_byte(0xCFFE), 0xEF);
    assert_eq!(bus.read_byte(0xCFFF), 0xBE);
    cpu.step(&mut bus);
    assert_eq!(cpu.sp, 0xD000);
    assert_eq!(cpu.registers.get_de(), 0xBEEF);
    cpu.step(&mut bus);
    cpu.step(&mut bus);
    assert_eq!(cpu.registers.get_hl(), 0x1290);
}

#[test]
fn pop_af_masks_low_nibble() {
    // POP AF
    let (mut cpu, mut bus) = machine(&[0xF1]);
    cpu.sp = 0xC000;
    bus.write_word(0xC000, 0x34FF);
    cpu.step(&mut bus);
    assert_eq!(cpu.registers.a, 0x34);
    assert_eq!(cpu.registers.get_af(), 0x34F0);
    assert!(cpu.registers.f.zero && cpu.registers.f.subtract);
    assert!(cpu.registers.f.half_carry && cpu.registers.f.carry);
}

#[test]
fn bit_seven_of_h() {
    // PREFIX; BIT 7, H
    let (mut cpu, mut bus) = machine(&[0xCB, 0x7C]);
    cpu.registers.h = 0x80;
    cpu.registers.f.carry = true;
    cpu.step(&mut bus);
    assert!(!cpu.registers.f.zero);
    assert!(!cpu.registers.f.subtract);
    assert!(cpu.registers.f.half_carry);
    assert!(cpu.registers.f.carry);
    assert_eq!(cpu.pc, 2);

    cpu.registers.h = 0x7F;
    cpu.pc = 0;
    cpu.step(&mut bus);
    assert!(cpu.registers.f.zero);
}
