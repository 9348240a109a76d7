use crate::bus::{lemma_word_round_trip, lemma_write_word_other, BusView, MemoryBus};
use crate::instruction::{
    decode, decode_prefixed, lemma_decode_opcode, ArithmeticTarget, Instruction, JumpTest,
    Load16Target, StackTarget,
};
use crate::{high_byte, lemma_compose, lemma_split, low_byte, signed_byte, word, wrap16, wrap8};
use vstd::prelude::*;

verus! {

// Bit positions of the four flags inside the packed flags byte.
const ZERO_FLAG_BYTE: u8 = 7;
const SUBTRACT_FLAG_BYTE: u8 = 6;
const HALF_CARRY_FLAG_BYTE: u8 = 5;
const CARRY_FLAG_BYTE: u8 = 4;

/// The flags register F: four condition bits.
#[derive(Clone, Copy, Debug, PartialEq, Eq, Structural)]
pub struct FlagsRegister {
    pub zero: bool,
    pub subtract: bool,
    pub half_carry: bool,
    pub carry: bool,
}

/// The packed flags byte for the four booleans: zero at bit 7, subtract at 6,
/// half-carry at 5, carry at 4, the low nibble clear.
pub open spec fn flags_byte(zero: bool, subtract: bool, half_carry: bool, carry: bool) -> u8 {
    (if zero { 0x80u8 } else { 0u8 }) | (if subtract { 0x40u8 } else { 0u8 }) | (if half_carry {
        0x20u8
    } else {
        0u8
    }) | (if carry { 0x10u8 } else { 0u8 })
}

/// The packed form of a flags value.
pub open spec fn pack_flags(f: FlagsRegister) -> u8 {
    flags_byte(f.zero, f.subtract, f.half_carry, f.carry)
}

/// The flags that a byte holds; its low nibble is ignored.
pub open spec fn unpack_flags(byte: u8) -> FlagsRegister {
    FlagsRegister {
        zero: byte & 0x80 != 0,
        subtract: byte & 0x40 != 0,
        half_carry: byte & 0x20 != 0,
        carry: byte & 0x10 != 0,
    }
}

impl From<FlagsRegister> for u8 {
    fn from(flag: FlagsRegister) -> (r: u8)
        ensures
            r == pack_flags(flag),
    {
        let z: u8 = if flag.zero { 1 } else { 0 };
        let s: u8 = if flag.subtract { 1 } else { 0 };
        let h: u8 = if flag.half_carry { 1 } else { 0 };
        let c: u8 = if flag.carry { 1 } else { 0 };
        let r = z << ZERO_FLAG_BYTE | s << SUBTRACT_FLAG_BYTE | h << HALF_CARRY_FLAG_BYTE | c
            << CARRY_FLAG_BYTE;
        let (fz, fs, fh, fc) = (flag.zero, flag.subtract, flag.half_carry, flag.carry);
        assert(r == flags_byte(fz, fs, fh, fc)) by (bit_vector)
            requires
                z == (if fz { 1u8 } else { 0u8 }),
                s == (if fs { 1u8 } else { 0u8 }),
                h == (if fh { 1u8 } else { 0u8 }),
                c == (if fc { 1u8 } else { 0u8 }),
                r == z << 7u8 | s << 6u8 | h << 5u8 | c << 4u8,
        ;
        r
    }
}

impl vstd::std_specs::convert::FromSpecImpl<FlagsRegister> for u8 {
    open spec fn obeys_from_spec() -> bool {
        true
    }

    open spec fn from_spec(flag: FlagsRegister) -> u8 {
        pack_flags(flag)
    }
}

impl From<u8> for FlagsRegister {
    fn from(byte: u8) -> (r: FlagsRegister)
        ensures
            r == unpack_flags(byte),
    {
        let zero = ((byte >> ZERO_FLAG_BYTE) & 0b1) != 0;
        let subtract = ((byte >> SUBTRACT_FLAG_BYTE) & 0b1) != 0;
        let half_carry = ((byte >> HALF_CARRY_FLAG_BYTE) & 0b1) != 0;
        let carry = ((byte >> CARRY_FLAG_BYTE) & 0b1) != 0;
        assert(zero == (byte & 0x80 != 0) && subtract == (byte & 0x40 != 0) && half_carry == (byte
            & 0x20 != 0) && carry == (byte & 0x10 != 0)) by (bit_vector)
            requires
                zero == (((byte >> 7u8) & 1) != 0),
                subtract == (((byte >> 6u8) & 1) != 0),
                half_carry == (((byte >> 5u8) & 1) != 0),
                carry == (((byte >> 4u8) & 1) != 0),
        ;
        FlagsRegister { zero, subtract, half_carry, carry }
    }
}

impl vstd::std_specs::convert::FromSpecImpl<u8> for FlagsRegister {
    open spec fn obeys_from_spec() -> bool {
        true
    }

    open spec fn from_spec(byte: u8) -> FlagsRegister {
        unpack_flags(byte)
    }
}

/// Packing four flags and unpacking the byte gives the same four flags back.
pub proof fn lemma_flags_round_trip(f: FlagsRegister)
    ensures
        unpack_flags(pack_flags(f)) == f,
{
    let (z, s, h, c) = (f.zero, f.subtract, f.half_carry, f.carry);
    let b = flags_byte(z, s, h, c);
    assert((b & 0x80 != 0) == z && (b & 0x40 != 0) == s && (b & 0x20 != 0) == h && (b & 0x10 != 0)
        == c) by (bit_vector)
        requires
            b == flags_byte(z, s, h, c),
    ;
}

/// Unpacking any byte and packing it again keeps the top nibble and clears the low one.
pub proof fn lemma_unpack_clears_low_nibble(byte: u8)
    ensures
        pack_flags(unpack_flags(byte)) == byte & 0xF0,
        pack_flags(unpack_flags(byte)) & 0x0F == 0,
{
    let f = unpack_flags(byte);
    let b = pack_flags(f);
    let (z, s, h, c) = (f.zero, f.subtract, f.half_carry, f.carry);
    assert(b == byte & 0xF0 && b & 0x0F == 0) by (bit_vector)
        requires
            z == (byte & 0x80 != 0),
            s == (byte & 0x40 != 0),
            h == (byte & 0x20 != 0),
            c == (byte & 0x10 != 0),
            b == flags_byte(z, s, h, c),
    ;
}

/// The processor's byte registers and its flags.
#[derive(Clone, Copy, Debug, PartialEq, Eq, Structural)]
pub struct Registers {
    pub a: u8,
    pub b: u8,
    pub c: u8,
    pub d: u8,
    pub e: u8,
    pub f: FlagsRegister,
    pub h: u8,
    pub l: u8,
}

impl Registers {
    pub open spec fn af(self) -> u16 {
        word(self.a, pack_flags(self.f))
    }

    pub open spec fn bc(self) -> u16 {
        word(self.b, self.c)
    }

    pub open spec fn de(self) -> u16 {
        word(self.d, self.e)
    }

    pub open spec fn hl(self) -> u16 {
        word(self.h, self.l)
    }

    /// A with the top byte of `v`, the flags from its low byte (low nibble dropped).
    pub open spec fn with_af(self, v: u16) -> Registers {
        Registers { a: high_byte(v), f: unpack_flags(low_byte(v) & 0xF0), ..self }
    }

    pub open spec fn with_bc(self, v: u16) -> Registers {
        Registers { b: high_byte(v), c: low_byte(v), ..self }
    }

    pub open spec fn with_de(self, v: u16) -> Registers {
        Registers { d: high_byte(v), e: low_byte(v), ..self }
    }

    pub open spec fn with_hl(self, v: u16) -> Registers {
        Registers { h: high_byte(v), l: low_byte(v), ..self }
    }

    pub fn get_af(&self) -> (r: u16)
        ensures
            r == self.af(),
    {
        let f: u8 = self.f.into();
        proof {
            lemma_compose(self.a, f);
        }
        (self.a as u16) << 8 | f as u16
    }

    pub fn set_af(&mut self, value: u16)
        ensures
            *final(self) == old(self).with_af(value),
    {
        proof {
            lemma_split(value);
            assert((value & 0xF0) as u8 == ((value & 0xFF) as u8) & 0xF0) by (bit_vector);
        }
        self.a = ((value & 0xFF00) >> 8) as u8;
        self.f = FlagsRegister::from((value & 0xF0) as u8);
    }

    pub fn get_de(&self) -> (r: u16)
        ensures
            r == self.de(),
    {
        proof {
            lemma_compose(self.d, self.e);
        }
        (self.d as u16) << 8 | self.e as u16
    }

    pub fn set_de(&mut self, value: u16)
        ensures
            *final(self) == old(self).with_de(value),
    {
        proof {
            lemma_split(value);
        }
        self.d = ((value & 0xFF00) >> 8) as u8;
        self.e = (value & 0xFF) as u8;
    }

    pub fn get_bc(&self) -> (r: u16)
        ensures
            r == self.bc(),
    {
        proof {
            lemma_compose(self.b, self.c);
        }
        (self.b as u16) << 8 | self.c as u16
    }

    pub fn set_bc(&mut self, value: u16)
        ensures
            *final(self) == old(self).with_bc(value),
    {
        proof {
            lemma_split(value);
        }
        self.b = ((value & 0xFF00) >> 8) as u8;
        self.c = (value & 0xFF) as u8;
    }

    pub fn get_hl(&self) -> (r: u16)
        ensures
            r == self.hl(),
    {
        proof {
            lemma_compose(self.h, self.l);
        }
        (self.h as u16) << 8 | self.l as u16
    }

    pub fn set_hl(&mut self, value: u16)
        ensures
            *final(self) == old(self).with_hl(value),
    {
        proof {
            lemma_split(value);
        }
        self.h = ((value & 0xFF00) >> 8) as u8;
        self.l = (value & 0xFF) as u8;
    }
}

/// Setting BC, DE or HL and reading the pair back gives the value set; AF
/// always reads with a clear low nibble.
pub proof fn lemma_pair_round_trip(r: Registers, v: u16)
    ensures
        r.with_bc(v).bc() == v,
        r.with_de(v).de() == v,
        r.with_hl(v).hl() == v,
        r.af() & 0x0F == 0,
        r.with_af(v).af() & 0x0F == 0,
{
    lemma_flags_clear_low_nibble(r.f);
    lemma_flags_clear_low_nibble(r.with_af(v).f);
    let (x, y) = (r.a, pack_flags(r.f));
    let (x2, y2) = (r.with_af(v).a, pack_flags(r.with_af(v).f));
    assert(y & 0x0F == 0 ==> ((x * 256 + y) as u16) & 0x0F == 0) by (bit_vector);
    assert(y2 & 0x0F == 0 ==> ((x2 * 256 + y2) as u16) & 0x0F == 0) by (bit_vector);
}

proof fn lemma_flags_clear_low_nibble(f: FlagsRegister)
    ensures
        pack_flags(f) & 0x0F == 0,
{
    let (z, s, h, c) = (f.zero, f.subtract, f.half_carry, f.carry);
    assert(flags_byte(z, s, h, c) & 0x0F == 0) by (bit_vector);
}

impl Registers {
    /// The value of an 8-bit register.
    pub open spec fn get(self, t: ArithmeticTarget) -> u8 {
        match t {
            ArithmeticTarget::A => self.a,
            ArithmeticTarget::B => self.b,
            ArithmeticTarget::C => self.c,
            ArithmeticTarget::D => self.d,
            ArithmeticTarget::E => self.e,
            ArithmeticTarget::H => self.h,
            ArithmeticTarget::L => self.l,
        }
    }

    /// The registers with one 8-bit register replaced.
    pub open spec fn set(self, t: ArithmeticTarget, v: u8) -> Registers {
        match t {
            ArithmeticTarget::A => Registers { a: v, ..self },
            ArithmeticTarget::B => Registers { b: v, ..self },
            ArithmeticTarget::C => Registers { c: v, ..self },
            ArithmeticTarget::D => Registers { d: v, ..self },
            ArithmeticTarget::E => Registers { e: v, ..self },
            ArithmeticTarget::H => Registers { h: v, ..self },
            ArithmeticTarget::L => Registers { l: v, ..self },
        }
    }

    /// The value of a pair that the stack instructions move.
    pub open spec fn stack_pair(self, t: StackTarget) -> u16 {
        match t {
            StackTarget::BC => self.bc(),
            StackTarget::DE => self.de(),
            StackTarget::HL => self.hl(),
            StackTarget::AF => self.af(),
        }
    }

    /// The registers with a stack pair replaced.
    pub open spec fn with_stack_pair(self, t: StackTarget, v: u16) -> Registers {
        match t {
            StackTarget::BC => self.with_bc(v),
            StackTarget::DE => self.with_de(v),
            StackTarget::HL => self.with_hl(v),
            StackTarget::AF => self.with_af(v),
        }
    }
}

/// Whether a jump condition holds for the given flags.
pub open spec fn condition_holds(f: FlagsRegister, t: JumpTest) -> bool {
    match t {
        JumpTest::NotZero => !f.zero,
        JumpTest::Zero => f.zero,
        JumpTest::NotCarry => !f.carry,
        JumpTest::Carry => f.carry,
        JumpTest::Always => true,
    }
}

/// Flags after adding `v` to `a`.
pub open spec fn add_flags(a: u8, v: u8) -> FlagsRegister {
    FlagsRegister {
        zero: wrap8(a + v) == 0,
        subtract: false,
        half_carry: a % 16 + v % 16 > 15,
        carry: a + v > 255,
    }
}

/// Flags after a logical operation with result `r`.
pub open spec fn logic_flags(r: u8) -> FlagsRegister {
    FlagsRegister { zero: r == 0, subtract: false, half_carry: false, carry: false }
}

/// Flags after incrementing `v`; carry is kept.
pub open spec fn inc_flags(f: FlagsRegister, v: u8) -> FlagsRegister {
    FlagsRegister { zero: wrap8(v + 1) == 0, subtract: false, half_carry: v % 16 == 15, ..f }
}

/// Flags after decrementing `v`; carry is kept.
pub open spec fn dec_flags(f: FlagsRegister, v: u8) -> FlagsRegister {
    FlagsRegister { zero: wrap8(v - 1) == 0, subtract: true, half_carry: v % 16 == 0, ..f }
}

/// Flags after testing bit 7 of `v`; carry is kept.
pub open spec fn bit7_flags(f: FlagsRegister, v: u8) -> FlagsRegister {
    FlagsRegister { zero: v < 0x80, subtract: false, half_carry: true, ..f }
}

/// The processor: registers, program counter and stack pointer.
pub struct CPU {
    pub registers: Registers,
    pub pc: u16,
    pub sp: u16,
}

impl CPU {
    /// The value of a 16-bit operand.
    pub open spec fn pair16(self, t: Load16Target) -> u16 {
        match t {
            Load16Target::BC => self.registers.bc(),
            Load16Target::DE => self.registers.de(),
            Load16Target::HL => self.registers.hl(),
            Load16Target::SP => self.sp,
        }
    }

    /// The processor with a 16-bit operand replaced.
    pub open spec fn with_pair16(self, t: Load16Target, v: u16) -> CPU {
        match t {
            Load16Target::BC => CPU { registers: self.registers.with_bc(v), ..self },
            Load16Target::DE => CPU { registers: self.registers.with_de(v), ..self },
            Load16Target::HL => CPU { registers: self.registers.with_hl(v), ..self },
            Load16Target::SP => CPU { sp: v, ..self },
        }
    }

    /// The processor with other registers.
    pub open spec fn with_registers(self, r: Registers) -> CPU {
        CPU { registers: r, ..self }
    }
}

/// The state at power-on: every register, the flags, the program counter and
/// the stack pointer zero.
pub open spec fn power_on_cpu() -> CPU {
    CPU {
        registers: Registers {
            a: 0,
            b: 0,
            c: 0,
            d: 0,
            e: 0,
            f: unpack_flags(0),
            h: 0,
            l: 0,
        },
        pc: 0,
        sp: 0,
    }
}

/// ADD: A plus the operand, wrapping, with its flags.
#[verifier::opaque]
pub open spec fn add_spec(cpu: CPU, t: ArithmeticTarget) -> CPU {
    let r = cpu.registers;
    cpu.with_registers(Registers { a: wrap8(r.a + r.get(t)), f: add_flags(r.a, r.get(t)), ..r })
}

/// XOR: A exclusive-or the operand, with its flags.
#[verifier::opaque]
pub open spec fn xor_spec(cpu: CPU, t: ArithmeticTarget) -> CPU {
    let r = cpu.registers;
    cpu.with_registers(Registers { a: r.a ^ r.get(t), f: logic_flags(r.a ^ r.get(t)), ..r })
}

/// INC: the register plus one, wrapping; carry kept.
#[verifier::opaque]
pub open spec fn inc_spec(cpu: CPU, t: ArithmeticTarget) -> CPU {
    let r = cpu.registers;
    cpu.with_registers(Registers { f: inc_flags(r.f, r.get(t)), ..r }.set(t, wrap8(r.get(t) + 1)))
}

/// DEC: the register minus one, wrapping; carry kept.
#[verifier::opaque]
pub open spec fn dec_spec(cpu: CPU, t: ArithmeticTarget) -> CPU {
    let r = cpu.registers;
    cpu.with_registers(Registers { f: dec_flags(r.f, r.get(t)), ..r }.set(t, wrap8(r.get(t) - 1)))
}

/// BIT: the zero flag tells whether bit 7 of the register is clear; carry kept.
#[verifier::opaque]
pub open spec fn bit_spec(cpu: CPU, t: ArithmeticTarget) -> CPU {
    let r = cpu.registers;
    cpu.with_registers(Registers { f: bit7_flags(r.f, r.get(t)), ..r })
}

/// INC16: the 16-bit operand plus one, wrapping; no flags.
#[verifier::opaque]
pub open spec fn inc16_spec(cpu: CPU, t: Load16Target) -> CPU {
    cpu.with_pair16(t, wrap16(cpu.pair16(t) + 1))
}

/// DEC16: the 16-bit operand minus one, wrapping; no flags.
#[verifier::opaque]
pub open spec fn dec16_spec(cpu: CPU, t: Load16Target) -> CPU {
    cpu.with_pair16(t, wrap16(cpu.pair16(t) - 1))
}

/// LD16: the little-endian word after the opcode goes to the operand.
#[verifier::opaque]
pub open spec fn ld16_spec(cpu: CPU, t: Load16Target, bus: BusView) -> CPU {
    CPU { pc: wrap16(cpu.pc + 2), ..cpu }.with_pair16(t, bus.read_word(cpu.pc))
}

/// LD (HL-), A: A is stored at HL, then HL goes down by one.
#[verifier::opaque]
pub open spec fn ld_hl_dec_a_spec(cpu: CPU, bus: BusView) -> (CPU, BusView) {
    let r = cpu.registers;
    (cpu.with_registers(r.with_hl(wrap16(r.hl() - 1))), bus.write(r.hl(), r.a))
}

/// JP: the absolute target is read in any case; the jump is taken if the condition holds.
#[verifier::opaque]
pub open spec fn jp_spec(cpu: CPU, t: JumpTest, bus: BusView) -> CPU {
    CPU {
        pc: if condition_holds(cpu.registers.f, t) {
            bus.read_word(cpu.pc)
        } else {
            wrap16(cpu.pc + 2)
        },
        ..cpu
    }
}

/// JR: the signed offset is read in any case and added to the address past it
/// if the condition holds.
#[verifier::opaque]
pub open spec fn jr_spec(cpu: CPU, t: JumpTest, bus: BusView) -> CPU {
    CPU {
        pc: if condition_holds(cpu.registers.f, t) {
            wrap16(cpu.pc + 1 + signed_byte(bus.read(cpu.pc)))
        } else {
            wrap16(cpu.pc + 1)
        },
        ..cpu
    }
}

/// CALL: the target is read in any case; if the condition holds, the address
/// past the operand is pushed and the target becomes the program counter.
#[verifier::opaque]
pub open spec fn call_spec(cpu: CPU, t: JumpTest, bus: BusView) -> (CPU, BusView) {
    if condition_holds(cpu.registers.f, t) {
        (
            CPU { pc: bus.read_word(cpu.pc), sp: wrap16(cpu.sp - 2), ..cpu },
            bus.write_word(wrap16(cpu.sp - 2), wrap16(cpu.pc + 2)),
        )
    } else {
        (CPU { pc: wrap16(cpu.pc + 2), ..cpu }, bus)
    }
}

/// RET: if the condition holds, the word on top of the stack is popped into
/// the program counter.
#[verifier::opaque]
pub open spec fn ret_spec(cpu: CPU, t: JumpTest, bus: BusView) -> CPU {
    if condition_holds(cpu.registers.f, t) {
        CPU { pc: bus.read_word(cpu.sp), sp: wrap16(cpu.sp + 2), ..cpu }
    } else {
        cpu
    }
}

/// PUSH: the stack pointer goes down by two, then the pair is written there.
#[verifier::opaque]
pub open spec fn push_spec(cpu: CPU, t: StackTarget, bus: BusView) -> (CPU, BusView) {
    (
        CPU { sp: wrap16(cpu.sp - 2), ..cpu },
        bus.write_word(wrap16(cpu.sp - 2), cpu.registers.stack_pair(t)),
    )
}

/// POP: the word at the stack pointer goes to the pair, then the stack pointer
/// goes up by two.
#[verifier::opaque]
pub open spec fn pop_spec(cpu: CPU, t: StackTarget, bus: BusView) -> CPU {
    CPU {
        registers: cpu.registers.with_stack_pair(t, bus.read_word(cpu.sp)),
        sp: wrap16(cpu.sp + 2),
        ..cpu
    }
}

/// The processor and bus after executing `i`, with the program counter just
/// past the opcode.
pub open spec fn execute_spec(cpu: CPU, i: Instruction, bus: BusView) -> (CPU, BusView) {
    match i {
        Instruction::ADD(t) => (add_spec(cpu, t), bus),
        Instruction::XOR(t) => (xor_spec(cpu, t), bus),
        Instruction::INC(t) => (inc_spec(cpu, t), bus),
        Instruction::DEC(t) => (dec_spec(cpu, t), bus),
        Instruction::BIT(t) => (bit_spec(cpu, t), bus),
        Instruction::INC16(t) => (inc16_spec(cpu, t), bus),
        Instruction::DEC16(t) => (dec16_spec(cpu, t), bus),
        Instruction::LD16(t) => (ld16_spec(cpu, t, bus), bus),
        Instruction::LD_HL_DEC_A => ld_hl_dec_a_spec(cpu, bus),
        Instruction::JP(t) => (jp_spec(cpu, t, bus), bus),
        Instruction::JR(t) => (jr_spec(cpu, t, bus), bus),
        Instruction::CALL(t) => call_spec(cpu, t, bus),
        Instruction::RET(t) => (ret_spec(cpu, t, bus), bus),
        Instruction::PUSH(t) => push_spec(cpu, t, bus),
        Instruction::POP(t) => (pop_spec(cpu, t, bus), bus),
        Instruction::PREFIX => (cpu, bus),
    }
}

/// The instruction at the program counter and the address just past it; for
/// the prefix byte, the instruction of the extended table that follows.
pub open spec fn fetch(cpu: CPU, bus: BusView) -> Option<(Instruction, u16)> {
    let next = wrap16(cpu.pc + 1);
    match decode(bus.read(cpu.pc)) {
        Some(Instruction::PREFIX) => match decode_prefixed(bus.read(next)) {
            Some(i) => Some((i, wrap16(next + 1))),
            None => None,
        },
        Some(i) => Some((i, next)),
        None => None,
    }
}

/// Whether the bytes at the program counter decode to an instruction.
pub open spec fn can_step(cpu: CPU, bus: BusView) -> bool {
    fetch(cpu, bus) is Some
}

/// The processor and bus after one fetch, decode and execute.
pub open spec fn step_spec(cpu: CPU, bus: BusView) -> (CPU, BusView) {
    let (i, next) = fetch(cpu, bus).unwrap();
    execute_spec(CPU { pc: next, ..cpu }, i, bus)
}

/// XOR of A with itself leaves A zero, the zero flag set and the other
/// flags clear, whatever A held.
pub proof fn lemma_xor_self(cpu: CPU, bus: BusView)
    ensures
        ({
            let (after, bus_after) = execute_spec(cpu, Instruction::XOR(ArithmeticTarget::A), bus);
            &&& after.registers.a == 0
            &&& after.registers.f == FlagsRegister {
                zero: true,
                subtract: false,
                half_carry: false,
                carry: false,
            }
            &&& bus_after == bus
        }),
{
    reveal(xor_spec);
    let a = cpu.registers.a;
    assert(a ^ a == 0) by (bit_vector);
}

/// A call to a subroutine that clears A and returns comes back just past the
/// call with the stack pointer restored and A zero, whatever A held: with the
/// program `CALL 0x0004; NOP; XOR A; RET` at address 0 and the stack pointer at
/// 0xFFFE, three steps each decode and end at address 3.
pub proof fn lemma_call_ret(cpu: CPU, bus: BusView)
    requires
        bus.wf(),
        cpu.pc == 0,
        cpu.sp == 0xFFFE,
        bus.read(0) == 0xCD,
        bus.read(1) == 0x04,
        bus.read(2) == 0x00,
        bus.read(3) == 0x00,
        bus.read(4) == 0xAF,
        bus.read(5) == 0xC9,
    ensures
        ({
            let (cpu1, bus1) = step_spec(cpu, bus);
            let (cpu2, bus2) = step_spec(cpu1, bus1);
            let (cpu3, bus3) = step_spec(cpu2, bus2);
            &&& can_step(cpu, bus)
            &&& can_step(cpu1, bus1)
            &&& can_step(cpu2, bus2)
            &&& cpu3.pc == 3
            &&& cpu3.sp == 0xFFFE
            &&& cpu3.registers.a == 0
        }),
{
    reveal(call_spec);
    reveal(xor_spec);
    reveal(ret_spec);
    lemma_decode_opcode(Instruction::CALL(JumpTest::Always));
    lemma_decode_opcode(Instruction::XOR(ArithmeticTarget::A));
    lemma_decode_opcode(Instruction::RET(JumpTest::Always));
    let (cpu1, bus1) = step_spec(cpu, bus);
    assert(cpu1.pc == 4 && cpu1.sp == 0xFFFC);
    assert(bus1 == bus.write_word(0xFFFC, 3));
    lemma_write_word_other(bus, 0xFFFC, 3, 4);
    lemma_write_word_other(bus, 0xFFFC, 3, 5);
    lemma_word_round_trip(bus, 0xFFFC, 3);
    let (cpu2, bus2) = step_spec(cpu1, bus1);
    assert(cpu2.pc == 5 && cpu2.sp == 0xFFFC && bus2 == bus1);
    let a = cpu1.registers.a;
    assert(a ^ a == 0) by (bit_vector);
    assert(cpu2.registers.a == 0);
}

proof fn lemma_low_nibble(x: u8)
    ensures
        x & 0xF == x % 16,
{
    assert(x & 0xF == x % 16) by (bit_vector);
}

proof fn lemma_sign_extend(pc: u16, b: u8)
    ensures
        pc.wrapping_add((b as i8) as u16) == wrap16(pc + signed_byte(b)),
{
    assert(b < 0x80 ==> (#[verifier::truncate] (b as i8)) as u16 == b as u16) by (bit_vector);
    assert(b >= 0x80 ==> (#[verifier::truncate] (b as i8)) as u16 == (b as u16) | 0xFF00)
        by (bit_vector);
    assert(b >= 0x80 ==> (b as u16) | 0xFF00 == b + 0xFF00) by (bit_vector);
}

impl CPU {
    /// A processor at power-on.
    pub fn new() -> (r: Self)
        ensures
            r == power_on_cpu(),
    {
        CPU {
            registers: Registers {
                a: 0,
                b: 0,
                c: 0,
                d: 0,
                e: 0,
                f: FlagsRegister::from(0),
                h: 0,
                l: 0,
            },
            pc: 0,
            sp: 0,
        }
    }

    fn read_reg(&self, target: &ArithmeticTarget) -> (r: u8)
        ensures
            r == self.registers.get(*target),
    {
        match target {
            ArithmeticTarget::A => self.registers.a,
            ArithmeticTarget::B => self.registers.b,
            ArithmeticTarget::C => self.registers.c,
            ArithmeticTarget::D => self.registers.d,
            ArithmeticTarget::E => self.registers.e,
            ArithmeticTarget::H => self.registers.h,
            ArithmeticTarget::L => self.registers.l,
        }
    }

    fn write_reg(&mut self, target: ArithmeticTarget, value: u8)
        ensures
            *final(self) == old(self).with_registers(old(self).registers.set(target, value)),
    {
        match target {
            ArithmeticTarget::A => self.registers.a = value,
            ArithmeticTarget::B => self.registers.b = value,
            ArithmeticTarget::C => self.registers.c = value,
            ArithmeticTarget::D => self.registers.d = value,
            ArithmeticTarget::E => self.registers.e = value,
            ArithmeticTarget::H => self.registers.h = value,
            ArithmeticTarget::L => self.registers.l = value,
        }
    }

    fn condition(&self, test: JumpTest) -> (r: bool)
        ensures
            r == condition_holds(self.registers.f, test),
    {
        match test {
            JumpTest::NotZero => !self.registers.f.zero,
            JumpTest::Zero => self.registers.f.zero,
            JumpTest::NotCarry => !self.registers.f.carry,
            JumpTest::Carry => self.registers.f.carry,
            JumpTest::Always => true,
        }
    }

    /// Adds `value` to A and sets the flags; returns the sum without storing it.
    fn add(&mut self, value: u8) -> (r: u8)
        ensures
            r == wrap8(old(self).registers.a + value),
            *final(self) == old(self).with_registers(
                Registers { f: add_flags(old(self).registers.a, value), ..old(self).registers },
            ),
    {
        let a = self.registers.a;
        let new_value = a.wrapping_add(value);
        proof {
            lemma_low_nibble(a);
            lemma_low_nibble(value);
        }
        self.registers.f.zero = new_value == 0;
        self.registers.f.subtract = false;
        self.registers.f.carry = (a as u16) + (value as u16) > 0xFF;
        self.registers.f.half_carry = (a & 0xF) + (value & 0xF) > 0xF;
        new_value
    }

    fn push(&mut self, bus: &mut MemoryBus, value: u16)
        ensures
            *final(self) == (CPU { sp: wrap16(old(self).sp - 2), ..*old(self) }),
            final(bus)@ == old(bus)@.write_word(wrap16(old(self).sp - 2), value),
    {
        self.sp = self.sp.wrapping_sub(2);
        bus.write_word(self.sp, value);
    }

    fn pop(&mut self, bus: &mut MemoryBus) -> (r: u16)
        ensures
            r == old(bus)@.read_word(old(self).sp),
            final(bus)@ == old(bus)@,
            *final(self) == (CPU { sp: wrap16(old(self).sp + 2), ..*old(self) }),
    {
        let top = bus.read_word(self.sp);
        self.sp = self.sp.wrapping_add(2);
        top
    }

    fn execute_add(&mut self, target: ArithmeticTarget)
        ensures
            *final(self) == add_spec(*old(self), target),
    {
        reveal(add_spec);
        let value = self.read_reg(&target);
        let result = self.add(value);
        self.registers.a = result;
    }

    fn execute_xor(&mut self, target: ArithmeticTarget)
        ensures
            *final(self) == xor_spec(*old(self), target),
    {
        reveal(xor_spec);
        let value = self.read_reg(&target);
        let result = self.registers.a ^ value;
        self.registers.a = result;
        self.registers.f.zero = result == 0;
        self.registers.f.subtract = false;
        self.registers.f.half_carry = false;
        self.registers.f.carry = false;
    }

    fn execute_inc(&mut self, target: ArithmeticTarget)
        ensures
            *final(self) == inc_spec(*old(self), target),
    {
        reveal(inc_spec);
        let value = self.read_reg(&target);
        let new_value = value.wrapping_add(1);
        proof {
            lemma_low_nibble(value);
        }
        self.registers.f.zero = new_value == 0;
        self.registers.f.subtract = false;
        self.registers.f.half_carry = (value & 0xF) == 0xF;
        self.write_reg(target, new_value);
    }

    fn execute_dec(&mut self, target: ArithmeticTarget)
        ensures
            *final(self) == dec_spec(*old(self), target),
    {
        reveal(dec_spec);
        let value = self.read_reg(&target);
        let new_value = value.wrapping_sub(1);
        proof {
            lemma_low_nibble(value);
        }
        self.registers.f.zero = new_value == 0;
        self.registers.f.subtract = true;
        self.registers.f.half_carry = (value & 0xF) == 0;
        self.write_reg(target, new_value);
    }

    fn execute_bit(&mut self, target: ArithmeticTarget)
        ensures
            *final(self) == bit_spec(*old(self), target),
    {
        reveal(bit_spec);
        let value = self.read_reg(&target);
        let result = value & 0x80;
        assert((value & 0x80 == 0) == (value < 0x80)) by (bit_vector);
        self.registers.f.zero = result == 0;
        self.registers.f.subtract = false;
        self.registers.f.half_carry = true;
    }

    fn read_pair16(&self, target: Load16Target) -> (r: u16)
        ensures
            r == self.pair16(target),
    {
        match target {
            Load16Target::BC => self.registers.get_bc(),
            Load16Target::DE => self.registers.get_de(),
            Load16Target::HL => self.registers.get_hl(),
            Load16Target::SP => self.sp,
        }
    }

    fn write_pair16(&mut self, target: Load16Target, value: u16)
        ensures
            *final(self) == old(self).with_pair16(target, value),
    {
        match target {
            Load16Target::BC => self.registers.set_bc(value),
            Load16Target::DE => self.registers.set_de(value),
            Load16Target::HL => self.registers.set_hl(value),
            Load16Target::SP => self.sp = value,
        }
    }

    fn execute_inc16(&mut self, target: Load16Target)
        ensures
            *final(self) == inc16_spec(*old(self), target),
    {
        reveal(inc16_spec);
        let value = self.read_pair16(target);
        self.write_pair16(target, value.wrapping_add(1));
    }

    fn execute_dec16(&mut self, target: Load16Target)
        ensures
            *final(self) == dec16_spec(*old(self), target),
    {
        reveal(dec16_spec);
        let value = self.read_pair16(target);
        self.write_pair16(target, value.wrapping_sub(1));
    }

    fn execute_ld16(&mut self, target: Load16Target, bus: &MemoryBus)
        ensures
            *final(self) == ld16_spec(*old(self), target, bus@),
    {
        reveal(ld16_spec);
        let value = bus.read_word(self.pc);
        self.pc = self.pc.wrapping_add(2);
        self.write_pair16(target, value);
    }

    fn execute_ld_hl_dec_a(&mut self, bus: &mut MemoryBus)
        ensures
            (*final(self), final(bus)@) == ld_hl_dec_a_spec(*old(self), old(bus)@),
    {
        reveal(ld_hl_dec_a_spec);
        let address = self.registers.get_hl();
        let value = self.registers.a;
        bus.write_byte(address, value);
        self.registers.set_hl(address.wrapping_sub(1));
    }

    fn execute_jp(&mut self, test: JumpTest, bus: &MemoryBus)
        ensures
            *final(self) == jp_spec(*old(self), test, bus@),
    {
        reveal(jp_spec);
        let jump_condition = self.condition(test);
        let jump_addr = bus.read_word(self.pc);
        self.pc = self.pc.wrapping_add(2);
        if jump_condition {
            self.pc = jump_addr;
        }
    }

    fn execute_jr(&mut self, test: JumpTest, bus: &MemoryBus)
        ensures
            *final(self) == jr_spec(*old(self), test, bus@),
    {
        reveal(jr_spec);
        let jump_condition = self.condition(test);
        let byte = bus.read_byte(self.pc);
        let offset = byte as i8;
        self.pc = self.pc.wrapping_add(1);
        if jump_condition {
            proof {
                lemma_sign_extend(self.pc, byte);
            }
            self.pc = self.pc.wrapping_add(offset as u16);
        }
    }

    fn execute_call(&mut self, test: JumpTest, bus: &mut MemoryBus)
        ensures
            (*final(self), final(bus)@) == call_spec(*old(self), test, old(bus)@),
    {
        reveal(call_spec);
        let call_condition = self.condition(test);
        let target_addr = bus.read_word(self.pc);
        self.pc = self.pc.wrapping_add(2);
        if call_condition {
            let return_addr = self.pc;
            self.push(bus, return_addr);
            self.pc = target_addr;
        }
    }

    fn execute_ret(&mut self, test: JumpTest, bus: &mut MemoryBus)
        ensures
            *final(self) == ret_spec(*old(self), test, old(bus)@),
            final(bus)@ == old(bus)@,
    {
        reveal(ret_spec);
        if self.condition(test) {
            let top = self.pop(bus);
            self.pc = top;
        }
    }

    fn execute_push(&mut self, target: StackTarget, bus: &mut MemoryBus)
        ensures
            (*final(self), final(bus)@) == push_spec(*old(self), target, old(bus)@),
    {
        reveal(push_spec);
        let value = match target {
            StackTarget::BC => self.registers.get_bc(),
            StackTarget::DE => self.registers.get_de(),
            StackTarget::HL => self.registers.get_hl(),
            StackTarget::AF => self.registers.get_af(),
        };
        self.push(bus, value);
    }

    fn execute_pop(&mut self, target: StackTarget, bus: &mut MemoryBus)
        ensures
            *final(self) == pop_spec(*old(self), target, old(bus)@),
            final(bus)@ == old(bus)@,
    {
        reveal(pop_spec);
        let result = self.pop(bus);
        match target {
            StackTarget::BC => self.registers.set_bc(result),
            StackTarget::DE => self.registers.set_de(result),
            StackTarget::HL => self.registers.set_hl(result),
            StackTarget::AF => self.registers.set_af(result),
        }
    }

    fn execute(&mut self, instruction: Instruction, bus: &mut MemoryBus)
        ensures
            (*final(self), final(bus)@) == execute_spec(*old(self), instruction, old(bus)@),
    {
        match instruction {
            Instruction::ADD(target) => self.execute_add(target),
            Instruction::XOR(target) => self.execute_xor(target),
            Instruction::INC(target) => self.execute_inc(target),
            Instruction::DEC(target) => self.execute_dec(target),
            Instruction::BIT(target) => self.execute_bit(target),
            Instruction::INC16(target) => self.execute_inc16(target),
            Instruction::DEC16(target) => self.execute_dec16(target),
            Instruction::LD16(target) => self.execute_ld16(target, bus),
            Instruction::LD_HL_DEC_A => self.execute_ld_hl_dec_a(bus),
            Instruction::JP(test) => self.execute_jp(test, bus),
            Instruction::JR(test) => self.execute_jr(test, bus),
            Instruction::CALL(test) => self.execute_call(test, bus),
            Instruction::RET(test) => self.execute_ret(test, bus),
            Instruction::PUSH(target) => self.execute_push(target, bus),
            Instruction::POP(target) => self.execute_pop(target, bus),
            Instruction::PREFIX => {},
        }
    }

    /// Fetches, decodes and executes one instruction. After the prefix byte the
    /// next byte is fetched too and decoded through the extended table.
    pub fn step(&mut self, bus: &mut MemoryBus)
        requires
            can_step(*old(self), old(bus)@),
        ensures
            (*final(self), final(bus)@) == step_spec(*old(self), old(bus)@),
    {
        let instruction_byte = bus.read_byte(self.pc);
        self.pc = self.pc.wrapping_add(1);
        let instruction = Instruction::from_byte(instruction_byte);
        match instruction {
            Some(Instruction::PREFIX) => {
                let cb_byte = bus.read_byte(self.pc);
                self.pc = self.pc.wrapping_add(1);
                match Instruction::from_cb_byte(cb_byte) {
                    Some(cb_inst) => self.execute(cb_inst, bus),
                    None => {},
                }
            },
            Some(instr) => self.execute(instr, bus),
            None => {},
        }
    }
}

} // verus!
