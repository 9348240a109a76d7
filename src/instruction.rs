use vstd::prelude::*;

verus! {

/// One decoded operation with its operand selector.
#[allow(non_camel_case_types)]
#[derive(Clone, Copy, Debug, PartialEq, Eq, Structural)]
pub enum Instruction {
    ADD(ArithmeticTarget),
    XOR(ArithmeticTarget),
    INC(ArithmeticTarget),
    DEC(ArithmeticTarget),
    INC16(Load16Target),
    DEC16(Load16Target),
    JP(JumpTest),
    JR(JumpTest),
    LD16(Load16Target),
    PUSH(StackTarget),
    POP(StackTarget),
    CALL(JumpTest),
    RET(JumpTest),
    LD_HL_DEC_A,
    BIT(ArithmeticTarget),
    PREFIX,
}

/// An 8-bit register operand.
#[derive(Clone, Copy, Debug, PartialEq, Eq, Structural)]
pub enum ArithmeticTarget {
    A,
    B,
    C,
    D,
    E,
    H,
    L,
}

/// The condition of a jump, call or return.
#[derive(Clone, Copy, Debug, PartialEq, Eq, Structural)]
pub enum JumpTest {
    NotZero,
    Zero,
    NotCarry,
    Carry,
    Always,
}

/// A 16-bit operand of loads, increments and decrements.
#[derive(Clone, Copy, Debug, PartialEq, Eq, Structural)]
pub enum Load16Target {
    BC,
    DE,
    HL,
    SP,
}

/// A register pair that can be pushed to or popped from the stack.
#[derive(Clone, Copy, Debug, PartialEq, Eq, Structural)]
pub enum StackTarget {
    BC,
    DE,
    HL,
    AF,
}

/// The escape byte after which an opcode of the extended table follows.
pub const PREFIX_BYTE: u8 = 0xCB;

/// The three-bit code of a register in the opcode layout.
pub open spec fn reg_code(t: ArithmeticTarget) -> int {
    match t {
        ArithmeticTarget::B => 0,
        ArithmeticTarget::C => 1,
        ArithmeticTarget::D => 2,
        ArithmeticTarget::E => 3,
        ArithmeticTarget::H => 4,
        ArithmeticTarget::L => 5,
        ArithmeticTarget::A => 7,
    }
}

/// The two-bit code of a 16-bit operand in the opcode layout.
pub open spec fn pair_code(t: Load16Target) -> int {
    match t {
        Load16Target::BC => 0,
        Load16Target::DE => 1,
        Load16Target::HL => 2,
        Load16Target::SP => 3,
    }
}

/// The two-bit code of a stack pair in the opcode layout.
pub open spec fn stack_code(t: StackTarget) -> int {
    match t {
        StackTarget::BC => 0,
        StackTarget::DE => 1,
        StackTarget::HL => 2,
        StackTarget::AF => 3,
    }
}

/// The primary opcode byte of an instruction, where the primary table maps one.
pub open spec fn opcode(i: Instruction) -> Option<int> {
    match i {
        Instruction::LD16(t) => Some(0x01 + 0x10 * pair_code(t)),
        Instruction::INC16(t) => Some(0x03 + 0x10 * pair_code(t)),
        Instruction::DEC16(t) => Some(0x0B + 0x10 * pair_code(t)),
        Instruction::INC(t) => Some(0x04 + 8 * reg_code(t)),
        Instruction::DEC(t) => Some(0x05 + 8 * reg_code(t)),
        Instruction::ADD(t) => Some(0x80 + reg_code(t)),
        Instruction::XOR(t) => Some(0xA8 + reg_code(t)),
        Instruction::POP(t) => Some(0xC1 + 0x10 * stack_code(t)),
        Instruction::PUSH(t) => Some(0xC5 + 0x10 * stack_code(t)),
        Instruction::LD_HL_DEC_A => Some(0x32),
        Instruction::JR(t) => if t == JumpTest::Always {
            Some(0x18)
        } else {
            None
        },
        Instruction::JP(t) => match t {
            JumpTest::Always => Some(0xC3),
            JumpTest::NotZero => Some(0xC2),
            JumpTest::Zero => Some(0xCA),
            _ => None,
        },
        Instruction::CALL(t) => match t {
            JumpTest::Always => Some(0xCD),
            JumpTest::NotZero => Some(0xC4),
            JumpTest::Zero => Some(0xCC),
            JumpTest::NotCarry => Some(0xDC),
            JumpTest::Carry => Some(0xD4),
        },
        Instruction::RET(t) => match t {
            JumpTest::Always => Some(0xC9),
            JumpTest::NotZero => Some(0xC0),
            JumpTest::Zero => Some(0xC8),
            JumpTest::NotCarry => Some(0xD0),
            JumpTest::Carry => Some(0xD8),
        },
        Instruction::PREFIX => Some(PREFIX_BYTE as int),
        Instruction::BIT(_) => None,
    }
}

/// The opcode byte, after the prefix, of an instruction of the extended table:
/// only the test of bit 7 of register H is mapped.
pub open spec fn prefixed_opcode(i: Instruction) -> Option<int> {
    match i {
        Instruction::BIT(t) => if t == ArithmeticTarget::H {
            Some(0x7C)
        } else {
            None
        },
        _ => None,
    }
}

/// The instruction whose primary opcode is `byte`, if any.
pub open spec fn decode(byte: u8) -> Option<Instruction> {
    if exists|i: Instruction| opcode(i) == Some(byte as int) {
        Some(choose|i: Instruction| opcode(i) == Some(byte as int))
    } else {
        None
    }
}

/// The instruction whose extended opcode is `byte`, if any.
pub open spec fn decode_prefixed(byte: u8) -> Option<Instruction> {
    if exists|i: Instruction| prefixed_opcode(i) == Some(byte as int) {
        Some(choose|i: Instruction| prefixed_opcode(i) == Some(byte as int))
    } else {
        None
    }
}

/// No two instructions share a primary opcode.
#[verifier::spinoff_prover]
#[verifier::rlimit(100)]
pub proof fn lemma_opcode_unique(i: Instruction, j: Instruction)
    requires
        opcode(i) is Some,
        opcode(i) == opcode(j),
    ensures
        i == j,
{
    match i {
        Instruction::ADD(_) => {},
        Instruction::XOR(_) => {},
        Instruction::INC(_) => {},
        Instruction::DEC(_) => {},
        Instruction::INC16(_) => {},
        Instruction::DEC16(_) => {},
        Instruction::JP(_) => {},
        Instruction::JR(_) => {},
        Instruction::LD16(_) => {},
        Instruction::PUSH(_) => {},
        Instruction::POP(_) => {},
        Instruction::CALL(_) => {},
        Instruction::RET(_) => {},
        Instruction::LD_HL_DEC_A => {},
        Instruction::BIT(_) => {},
        Instruction::PREFIX => {},
    }
}

/// No two instructions share an extended opcode.
pub proof fn lemma_prefixed_opcode_unique(i: Instruction, j: Instruction)
    requires
        prefixed_opcode(i) is Some,
        prefixed_opcode(i) == prefixed_opcode(j),
    ensures
        i == j,
{
}

/// Decoding the primary opcode of an instruction gives the instruction back.
pub proof fn lemma_decode_opcode(i: Instruction)
    requires
        opcode(i) is Some,
    ensures
        decode(opcode(i).unwrap() as u8) == Some(i),
{
    let byte = opcode(i).unwrap() as u8;
    let c = choose|c: Instruction| opcode(c) == Some(byte as int);
    lemma_opcode_unique(i, c);
}

/// Decoding the extended opcode of an instruction gives the instruction back.
pub proof fn lemma_decode_prefixed_opcode(i: Instruction)
    requires
        prefixed_opcode(i) is Some,
    ensures
        decode_prefixed(prefixed_opcode(i).unwrap() as u8) == Some(i),
{
    let byte = prefixed_opcode(i).unwrap() as u8;
    let c = choose|c: Instruction| prefixed_opcode(c) == Some(byte as int);
    lemma_prefixed_opcode_unique(i, c);
}

impl Instruction {
    /// Decodes a primary opcode byte.
    pub fn from_byte(byte: u8) -> (r: Option<Instruction>)
        ensures
            r == decode(byte),
    {
        let r = match byte {
            0x01 => Some(Instruction::LD16(Load16Target::BC)),
            0x11 => Some(Instruction::LD16(Load16Target::DE)),
            0x21 => Some(Instruction::LD16(Load16Target::HL)),
            0x31 => Some(Instruction::LD16(Load16Target::SP)),
            0x32 => Some(Instruction::LD_HL_DEC_A),
            0x18 => Some(Instruction::JR(JumpTest::Always)),
            0x03 => Some(Instruction::INC16(Load16Target::BC)),
            0x13 => Some(Instruction::INC16(Load16Target::DE)),
            0x23 => Some(Instruction::INC16(Load16Target::HL)),
            0x33 => Some(Instruction::INC16(Load16Target::SP)),
            0x0B => Some(Instruction::DEC16(Load16Target::BC)),
            0x1B => Some(Instruction::DEC16(Load16Target::DE)),
            0x2B => Some(Instruction::DEC16(Load16Target::HL)),
            0x3B => Some(Instruction::DEC16(Load16Target::SP)),
            0x3C => Some(Instruction::INC(ArithmeticTarget::A)),
            0x04 => Some(Instruction::INC(ArithmeticTarget::B)),
            0x0C => Some(Instruction::INC(ArithmeticTarget::C)),
            0x14 => Some(Instruction::INC(ArithmeticTarget::D)),
            0x1C => Some(Instruction::INC(ArithmeticTarget::E)),
            0x24 => Some(Instruction::INC(ArithmeticTarget::H)),
            0x2C => Some(Instruction::INC(ArithmeticTarget::L)),
            0x3D => Some(Instruction::DEC(ArithmeticTarget::A)),
            0x05 => Some(Instruction::DEC(ArithmeticTarget::B)),
            0x0D => Some(Instruction::DEC(ArithmeticTarget::C)),
            0x15 => Some(Instruction::DEC(ArithmeticTarget::D)),
            0x1D => Some(Instruction::DEC(ArithmeticTarget::E)),
            0x25 => Some(Instruction::DEC(ArithmeticTarget::H)),
            0x2D => Some(Instruction::DEC(ArithmeticTarget::L)),
            0x80 => Some(Instruction::ADD(ArithmeticTarget::B)),
            0x81 => Some(Instruction::ADD(ArithmeticTarget::C)),
            0x82 => Some(Instruction::ADD(ArithmeticTarget::D)),
            0x83 => Some(Instruction::ADD(ArithmeticTarget::E)),
            0x84 => Some(Instruction::ADD(ArithmeticTarget::H)),
            0x85 => Some(Instruction::ADD(ArithmeticTarget::L)),
            // 0x86, ADD A with the byte at HL, is not mapped
            0x87 => Some(Instruction::ADD(ArithmeticTarget::A)),
            0xC3 => Some(Instruction::JP(JumpTest::Always)),
            0xC2 => Some(Instruction::JP(JumpTest::NotZero)),
            0xCA => Some(Instruction::JP(JumpTest::Zero)),
            0xA8 => Some(Instruction::XOR(ArithmeticTarget::B)),
            0xA9 => Some(Instruction::XOR(ArithmeticTarget::C)),
            0xAA => Some(Instruction::XOR(ArithmeticTarget::D)),
            0xAB => Some(Instruction::XOR(ArithmeticTarget::E)),
            0xAC => Some(Instruction::XOR(ArithmeticTarget::H)),
            0xAD => Some(Instruction::XOR(ArithmeticTarget::L)),
            0xAF => Some(Instruction::XOR(ArithmeticTarget::A)),
            0xC1 => Some(Instruction::POP(StackTarget::BC)),
            0xD1 => Some(Instruction::POP(StackTarget::DE)),
            0xE1 => Some(Instruction::POP(StackTarget::HL)),
            0xF1 => Some(Instruction::POP(StackTarget::AF)),
            0xC5 => Some(Instruction::PUSH(StackTarget::BC)),
            0xD5 => Some(Instruction::PUSH(StackTarget::DE)),
            0xE5 => Some(Instruction::PUSH(StackTarget::HL)),
            0xF5 => Some(Instruction::PUSH(StackTarget::AF)),
            0xCD => Some(Instruction::CALL(JumpTest::Always)),
            0xC4 => Some(Instruction::CALL(JumpTest::NotZero)),
            0xCC => Some(Instruction::CALL(JumpTest::Zero)),
            0xDC => Some(Instruction::CALL(JumpTest::NotCarry)),
            0xD4 => Some(Instruction::CALL(JumpTest::Carry)),
            0xC9 => Some(Instruction::RET(JumpTest::Always)),
            0xC0 => Some(Instruction::RET(JumpTest::NotZero)),
            0xC8 => Some(Instruction::RET(JumpTest::Zero)),
            0xD0 => Some(Instruction::RET(JumpTest::NotCarry)),
            0xD8 => Some(Instruction::RET(JumpTest::Carry)),
            0xCB => Some(Instruction::PREFIX),
            _ => None,
        };
        proof {
            match r {
                Some(i) => lemma_decode_opcode(i),
                None => {
                    assert forall|i: Instruction| opcode(i) != Some(byte as int) by {}
                },
            }
        }
        r
    }

    /// Decodes the opcode byte that follows the prefix.
    pub fn from_cb_byte(byte: u8) -> (r: Option<Instruction>)
        ensures
            r == decode_prefixed(byte),
    {
        let r = match byte {
            0x7C => Some(Instruction::BIT(ArithmeticTarget::H)),
            _ => None,
        };
        proof {
            match r {
                Some(i) => lemma_decode_prefixed_opcode(i),
                None => {
                    assert forall|i: Instruction| prefixed_opcode(i) != Some(byte as int) by {}
                },
            }
        }
        r
    }
}

} // verus!
