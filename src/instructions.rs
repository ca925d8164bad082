use vstd::prelude::*;

verus! {

/// The extension prefix: the next byte is decoded from the extended table.
pub const PREFIX_BYTE: u8 = 0xCB;

#[derive(Clone, Copy, Debug, PartialEq, Eq, Structural)]
pub enum Reg8 {
    A,
    B,
    C,
    D,
    E,
    H,
    L,
}

/// Where an 8-bit value is read from.
#[derive(Clone, Copy, Debug, PartialEq, Eq, Structural)]
pub enum Operand {
    Reg(Reg8),
    /// The byte at the address HL holds.
    HLI,
    /// The byte that follows the opcode.
    D8,
}

#[derive(Clone, Copy, Debug, PartialEq, Eq, Structural)]
pub enum AluOp {
    Add,
    Adc,
    Sub,
    Sbc,
    And,
    Xor,
    Or,
    Cp,
}

#[derive(Clone, Copy, Debug, PartialEq, Eq, Structural)]
pub enum Reg16 {
    BC,
    DE,
    HL,
    SP,
}

#[derive(Clone, Copy, Debug, PartialEq, Eq, Structural)]
pub enum StackTarget {
    BC,
    DE,
    HL,
    AF,
}

#[derive(Clone, Copy, Debug, PartialEq, Eq, Structural)]
pub enum JumpTest {
    NotZero,
    Zero,
    NotCarry,
    Carry,
    Always,
}

#[derive(Clone, Copy, Debug, PartialEq, Eq, Structural)]
pub enum Instruction {
    Nop,
    /// A := A op operand (CP only sets the flags).
    Alu(AluOp, Operand),
    Inc(Reg8),
    Dec(Reg8),
    /// LD r, operand.
    Ld(Reg8, Operand),
    /// LD (HL), r.
    StoreHl(Reg8),
    /// LD rr, d16.
    Ld16(Reg16),
    Jp(JumpTest),
    Jr(JumpTest),
    Call(JumpTest),
    Ret(JumpTest),
    Push(StackTarget),
    Pop(StackTarget),
    Di,
    Ei,
    /// Extended table: test bit n of r.
    TestBit(u8, Reg8),
    /// Extended table: clear bit n of r.
    ResetBit(u8, Reg8),
    /// Extended table: set bit n of r.
    SetBit(u8, Reg8),
    /// Extended table: exchange the nibbles of r.
    Swap(Reg8),
}

/// The register a 3-bit operand field names; 6 names (HL) and has none.
pub open spec fn reg_field(i: u8) -> Option<Reg8> {
    if i == 0 {
        Some(Reg8::B)
    } else if i == 1 {
        Some(Reg8::C)
    } else if i == 2 {
        Some(Reg8::D)
    } else if i == 3 {
        Some(Reg8::E)
    } else if i == 4 {
        Some(Reg8::H)
    } else if i == 5 {
        Some(Reg8::L)
    } else if i == 7 {
        Some(Reg8::A)
    } else {
        None
    }
}

/// The operand a 3-bit field names.
pub open spec fn operand_field(i: u8) -> Operand {
    match reg_field(i) {
        Some(r) => Operand::Reg(r),
        None => Operand::HLI,
    }
}

pub open spec fn alu_field(i: u8) -> AluOp {
    if i == 0 {
        AluOp::Add
    } else if i == 1 {
        AluOp::Adc
    } else if i == 2 {
        AluOp::Sub
    } else if i == 3 {
        AluOp::Sbc
    } else if i == 4 {
        AluOp::And
    } else if i == 5 {
        AluOp::Xor
    } else if i == 6 {
        AluOp::Or
    } else {
        AluOp::Cp
    }
}

/// The condition a 2-bit field of a conditional branch names.
pub open spec fn test_field(i: u8) -> JumpTest {
    if i == 0 {
        JumpTest::NotZero
    } else if i == 1 {
        JumpTest::Zero
    } else if i == 2 {
        JumpTest::NotCarry
    } else {
        JumpTest::Carry
    }
}

pub open spec fn reg16_field(i: u8) -> Reg16 {
    if i == 0 {
        Reg16::BC
    } else if i == 1 {
        Reg16::DE
    } else if i == 2 {
        Reg16::HL
    } else {
        Reg16::SP
    }
}

pub open spec fn stack_field(i: u8) -> StackTarget {
    if i == 0 {
        StackTarget::BC
    } else if i == 1 {
        StackTarget::DE
    } else if i == 2 {
        StackTarget::HL
    } else {
        StackTarget::AF
    }
}

/// The base opcode table.
pub open spec fn decode_base(b: u8) -> Option<Instruction> {
    let x = b / 64;
    let y = (b / 8) % 8;
    let z = b % 8;
    if b == 0x00 {
        Some(Instruction::Nop)
    } else if x == 0 && z == 1 && y % 2 == 0 {
        Some(Instruction::Ld16(reg16_field(y / 2)))
    } else if x == 0 && z == 4 && y != 6 {
        Some(Instruction::Inc(reg_field(y).unwrap()))
    } else if x == 0 && z == 5 && y != 6 {
        Some(Instruction::Dec(reg_field(y).unwrap()))
    } else if x == 0 && z == 6 && y != 6 {
        Some(Instruction::Ld(reg_field(y).unwrap(), Operand::D8))
    } else if b == 0x18 {
        Some(Instruction::Jr(JumpTest::Always))
    } else if x == 0 && z == 0 && y >= 4 {
        Some(Instruction::Jr(test_field((y - 4) as u8)))
    } else if b == 0x76 {
        None
    } else if x == 1 && y == 6 {
        Some(Instruction::StoreHl(reg_field(z).unwrap()))
    } else if x == 1 {
        Some(Instruction::Ld(reg_field(y).unwrap(), operand_field(z)))
    } else if x == 2 {
        Some(Instruction::Alu(alu_field(y), operand_field(z)))
    } else if x == 3 && z == 6 {
        Some(Instruction::Alu(alu_field(y), Operand::D8))
    } else if b == 0xC3 {
        Some(Instruction::Jp(JumpTest::Always))
    } else if b == 0xCD {
        Some(Instruction::Call(JumpTest::Always))
    } else if b == 0xC9 {
        Some(Instruction::Ret(JumpTest::Always))
    } else if b == 0xF3 {
        Some(Instruction::Di)
    } else if b == 0xFB {
        Some(Instruction::Ei)
    } else if x == 3 && y < 4 && z == 2 {
        Some(Instruction::Jp(test_field(y)))
    } else if x == 3 && y < 4 && z == 4 {
        Some(Instruction::Call(test_field(y)))
    } else if x == 3 && y < 4 && z == 0 {
        Some(Instruction::Ret(test_field(y)))
    } else if x == 3 && z == 1 && y % 2 == 0 {
        Some(Instruction::Pop(stack_field(y / 2)))
    } else if x == 3 && z == 5 && y % 2 == 0 {
        Some(Instruction::Push(stack_field(y / 2)))
    } else {
        None
    }
}

/// The extended opcode table (after the prefix byte).
pub open spec fn decode_extended(b: u8) -> Option<Instruction> {
    let x = b / 64;
    let y = (b / 8) % 8;
    let z = b % 8;
    if z == 6 {
        None
    } else if x == 0 && y == 6 {
        Some(Instruction::Swap(reg_field(z).unwrap()))
    } else if x == 1 {
        Some(Instruction::TestBit(y, reg_field(z).unwrap()))
    } else if x == 2 {
        Some(Instruction::ResetBit(y, reg_field(z).unwrap()))
    } else if x == 3 {
        Some(Instruction::SetBit(y, reg_field(z).unwrap()))
    } else {
        None
    }
}

pub open spec fn decode(b: u8, prefixed: bool) -> Option<Instruction> {
    if prefixed {
        decode_extended(b)
    } else {
        decode_base(b)
    }
}

fn reg_of(i: u8) -> (r: Option<Reg8>)
    ensures
        r == reg_field(i),
{
    if i == 0 {
        Some(Reg8::B)
    } else if i == 1 {
        Some(Reg8::C)
    } else if i == 2 {
        Some(Reg8::D)
    } else if i == 3 {
        Some(Reg8::E)
    } else if i == 4 {
        Some(Reg8::H)
    } else if i == 5 {
        Some(Reg8::L)
    } else if i == 7 {
        Some(Reg8::A)
    } else {
        None
    }
}

fn operand_of(i: u8) -> (r: Operand)
    ensures
        r == operand_field(i),
{
    match reg_of(i) {
        Some(r) => Operand::Reg(r),
        None => Operand::HLI,
    }
}

fn alu_of(i: u8) -> (r: AluOp)
    ensures
        r == alu_field(i),
{
    if i == 0 {
        AluOp::Add
    } else if i == 1 {
        AluOp::Adc
    } else if i == 2 {
        AluOp::Sub
    } else if i == 3 {
        AluOp::Sbc
    } else if i == 4 {
        AluOp::And
    } else if i == 5 {
        AluOp::Xor
    } else if i == 6 {
        AluOp::Or
    } else {
        AluOp::Cp
    }
}

fn test_of(i: u8) -> (r: JumpTest)
    ensures
        r == test_field(i),
{
    if i == 0 {
        JumpTest::NotZero
    } else if i == 1 {
        JumpTest::Zero
    } else if i == 2 {
        JumpTest::NotCarry
    } else {
        JumpTest::Carry
    }
}

fn reg16_of(i: u8) -> (r: Reg16)
    ensures
        r == reg16_field(i),
{
    if i == 0 {
        Reg16::BC
    } else if i == 1 {
        Reg16::DE
    } else if i == 2 {
        Reg16::HL
    } else {
        Reg16::SP
    }
}

fn stack_of(i: u8) -> (r: StackTarget)
    ensures
        r == stack_field(i),
{
    if i == 0 {
        StackTarget::BC
    } else if i == 1 {
        StackTarget::DE
    } else if i == 2 {
        StackTarget::HL
    } else {
        StackTarget::AF
    }
}

impl Instruction {
    /// Looks an opcode up in the base table, or in the extended one when it
    /// follows the prefix byte. `None` marks a gap in the table.
    pub fn from_byte(b: u8, prefixed: bool) -> (r: Option<Instruction>)
        ensures
            r == decode(b, prefixed),
    {
        let x = b / 64;
        let y = (b / 8) % 8;
        let z = b % 8;
        if prefixed {
            if z == 6 {
                None
            } else if x == 0 && y == 6 {
                Some(Instruction::Swap(reg_of(z).unwrap()))
            } else if x == 1 {
                Some(Instruction::TestBit(y, reg_of(z).unwrap()))
            } else if x == 2 {
                Some(Instruction::ResetBit(y, reg_of(z).unwrap()))
            } else if x == 3 {
                Some(Instruction::SetBit(y, reg_of(z).unwrap()))
            } else {
                None
            }
        } else if b == 0x00 {
            Some(Instruction::Nop)
        } else if x == 0 && z == 1 && y % 2 == 0 {
            Some(Instruction::Ld16(reg16_of(y / 2)))
        } else if x == 0 && z == 4 && y != 6 {
            Some(Instruction::Inc(reg_of(y).unwrap()))
        } else if x == 0 && z == 5 && y != 6 {
            Some(Instruction::Dec(reg_of(y).unwrap()))
        } else if x == 0 && z == 6 && y != 6 {
            Some(Instruction::Ld(reg_of(y).unwrap(), Operand::D8))
        } else if b == 0x18 {
            Some(Instruction::Jr(JumpTest::Always))
        } else if x == 0 && z == 0 && y >= 4 {
            Some(Instruction::Jr(test_of(y - 4)))
        } else if b == 0x76 {
            None
        } else if x == 1 && y == 6 {
            Some(Instruction::StoreHl(reg_of(z).unwrap()))
        } else if x == 1 {
            Some(Instruction::Ld(reg_of(y).unwrap(), operand_of(z)))
        } else if x == 2 {
            Some(Instruction::Alu(alu_of(y), operand_of(z)))
        } else if x == 3 && z == 6 {
            Some(Instruction::Alu(alu_of(y), Operand::D8))
        } else if b == 0xC3 {
            Some(Instruction::Jp(JumpTest::Always))
        } else if b == 0xCD {
            Some(Instruction::Call(JumpTest::Always))
        } else if b == 0xC9 {
            Some(Instruction::Ret(JumpTest::Always))
        } else if b == 0xF3 {
            Some(Instruction::Di)
        } else if b == 0xFB {
            Some(Instruction::Ei)
        } else if x == 3 && y < 4 && z == 2 {
            Some(Instruction::Jp(test_of(y)))
        } else if x == 3 && y < 4 && z == 4 {
            Some(Instruction::Call(test_of(y)))
        } else if x == 3 && y < 4 && z == 0 {
            Some(Instruction::Ret(test_of(y)))
        } else if x == 3 && z == 1 && y % 2 == 0 {
            Some(Instruction::Pop(stack_of(y / 2)))
        } else if x == 3 && z == 5 && y % 2 == 0 {
            Some(Instruction::Push(stack_of(y / 2)))
        } else {
            None
        }
    }
}

} // verus!
