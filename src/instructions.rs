use vstd::prelude::*;

use crate::registers::{Flag, Register};

verus! {

/// What an auto-addressing load or store does to its address register after
/// the access.
#[derive(Clone, Copy, Debug, PartialEq, Eq, Structural)]
pub enum RegisterSideEffect {
    Inc,
    Dec,
}

/// The addressing mode of a load.
#[derive(Clone, Copy, Debug, PartialEq, Eq, Structural)]
pub enum LoadType {
    /// Two operand bytes, low byte first, into a register.
    ImmediateWord(Register),
    /// One operand byte into a register.
    ImmediateByte(Register),
    /// Destination, source.
    RegToReg(Register, Register),
    /// One operand byte to memory at the address the register holds.
    ImmediateByteToMemory(Register),
    /// Address register, source register.
    ToMemory(Register, Register),
    /// The accumulator to memory at the address register, which then moves.
    ToMemoryWithSideEffect(Register, RegisterSideEffect),
    /// Destination register, address register.
    FromMemory(Register, Register),
    /// Memory at the address register into the accumulator; the address
    /// register then moves.
    FromMemoryWithSideEffect(Register, RegisterSideEffect),
    /// The stack pointer to the absolute address given by two operand bytes.
    StackPointerToMemory,
}

/// The second operand of an exclusive or with the accumulator.
#[derive(Clone, Copy, Debug, PartialEq, Eq, Structural)]
pub enum XORTarget {
    Register(Register),
}

/// When a conditional jump is taken.
#[derive(Clone, Copy, Debug, PartialEq, Eq, Structural)]
pub enum JumpCondition {
    /// Taken when the flag is clear.
    NegatedFlag(Flag),
}

/// An instruction of the primary opcode table.
#[derive(Clone, Copy, Debug, PartialEq, Eq, Structural)]
pub enum Instruction {
    Load(LoadType),
    XOR(XORTarget),
    JumpRelative(JumpCondition),
    /// The prefix byte: the next byte is an opcode of the secondary table.
    Prefixed,
    NoOp,
}

/// An instruction of the secondary (prefixed) opcode table.
#[derive(Clone, Copy, Debug, PartialEq, Eq, Structural)]
pub enum PrefixedInstruction {
    /// Test the bit at the index (0 to 7) of the register.
    Bit(u8, Register),
    NoOp,
}

/// The 8-bit register that a three-bit operand field names; 6 names memory
/// at HL and is handled by the caller, 7 is the accumulator.
pub open spec fn narrow_operand(code: int) -> Register {
    if code == 0 {
        Register::B
    } else if code == 1 {
        Register::C
    } else if code == 2 {
        Register::D
    } else if code == 3 {
        Register::E
    } else if code == 4 {
        Register::H
    } else if code == 5 {
        Register::L
    } else {
        Register::A
    }
}

/// The 16-bit register that a two-bit operand field names.
pub open spec fn wide_operand(code: int) -> Register {
    if code == 0 {
        Register::BC
    } else if code == 1 {
        Register::DE
    } else if code == 2 {
        Register::HL
    } else {
        Register::StackPointer
    }
}

/// The auto-addressing mode of rows 2 and 3 of the first quarter.
pub open spec fn hl_side_effect(row: int) -> RegisterSideEffect {
    if row == 2 {
        RegisterSideEffect::Inc
    } else {
        RegisterSideEffect::Dec
    }
}

/// The primary opcode table, by the fields of the opcode.
///
/// First quarter (`0x00..0x40`), row `op / 16`, column `op % 16`: column 1
/// loads a 16-bit register from two operand bytes; columns 2 and 10 store the
/// accumulator to, or load it from, memory at BC or DE (rows 0 and 1) or at HL
/// with increment (row 2) or decrement (row 3); `op % 8 == 6` loads an 8-bit
/// register (or memory at HL, `0x36`) from one operand byte; `0x08` stores
/// the stack pointer to an absolute address; `0x20` is the relative jump
/// taken when Zero is clear.
/// Second quarter (`0x40..0x80`, but `0x76`): a load from the register named
/// by `op % 8` into the one named by `(op - 0x40) / 8`, where 6 names memory at
/// HL. Then `0xAF` is XOR A and `0xCB` the prefix. Every other opcode is a no-op.
pub open spec fn primary(opcode: u8) -> Instruction {
    let op = opcode as int;
    if 0x40 <= op < 0x80 {
        let dst = (op - 0x40) / 8;
        let src = op % 8;
        if op == 0x76 {
            Instruction::NoOp
        } else if src == 6 {
            Instruction::Load(LoadType::FromMemory(narrow_operand(dst), Register::HL))
        } else if dst == 6 {
            Instruction::Load(LoadType::ToMemory(Register::HL, narrow_operand(src)))
        } else {
            Instruction::Load(LoadType::RegToReg(narrow_operand(dst), narrow_operand(src)))
        }
    } else if op < 0x40 {
        let row = op / 16;
        let col = op % 16;
        if col == 1 {
            Instruction::Load(LoadType::ImmediateWord(wide_operand(row)))
        } else if col == 2 {
            if row < 2 {
                Instruction::Load(LoadType::ToMemory(wide_operand(row), Register::A))
            } else {
                Instruction::Load(
                    LoadType::ToMemoryWithSideEffect(Register::HL, hl_side_effect(row)),
                )
            }
        } else if col == 10 {
            if row < 2 {
                Instruction::Load(LoadType::FromMemory(Register::A, wide_operand(row)))
            } else {
                Instruction::Load(
                    LoadType::FromMemoryWithSideEffect(Register::HL, hl_side_effect(row)),
                )
            }
        } else if op % 8 == 6 {
            if op == 0x36 {
                Instruction::Load(LoadType::ImmediateByteToMemory(Register::HL))
            } else {
                Instruction::Load(LoadType::ImmediateByte(narrow_operand(op / 8)))
            }
        } else if op == 0x08 {
            Instruction::Load(LoadType::StackPointerToMemory)
        } else if op == 0x20 {
            Instruction::JumpRelative(JumpCondition::NegatedFlag(Flag::Z))
        } else {
            Instruction::NoOp
        }
    } else if op == 0xAF {
        Instruction::XOR(XORTarget::Register(Register::A))
    } else if op == 0xCB {
        Instruction::Prefixed
    } else {
        Instruction::NoOp
    }
}

/// The opcodes that the primary table assigns an operation.
pub open spec fn is_assigned(opcode: u8) -> bool {
    let op = opcode as int;
    ||| op < 0x40 && (op % 16 == 1 || op % 16 == 2 || op % 16 == 10 || op % 8 == 6 || op == 0x08
        || op == 0x20)
    ||| 0x40 <= op < 0x80 && op != 0x76
    ||| op == 0xAF
    ||| op == 0xCB
}

/// The secondary opcode table: `0x7C` tests bit 7 of H, every other opcode is
/// a no-op.
pub open spec fn secondary(op: u8) -> PrefixedInstruction {
    if op == 0x7C {
        PrefixedInstruction::Bit(7, Register::H)
    } else {
        PrefixedInstruction::NoOp
    }
}

/// How many operand bytes follow the opcode of an instruction; for the prefix
/// this is the secondary opcode.
pub open spec fn operand_len(ins: Instruction) -> int {
    match ins {
        Instruction::Load(LoadType::ImmediateWord(_)) => 2,
        Instruction::Load(LoadType::StackPointerToMemory) => 2,
        Instruction::Load(LoadType::ImmediateByte(_)) => 1,
        Instruction::Load(LoadType::ImmediateByteToMemory(_)) => 1,
        Instruction::JumpRelative(_) => 1,
        Instruction::Prefixed => 1,
        _ => 0,
    }
}

impl Instruction {
    /// Classifies a first opcode byte. Total: every byte gives an instruction,
    /// and exactly the unassigned ones give a no-op.
    pub fn decode(opcode: u8) -> (ins: Self)
        ensures
            ins == primary(opcode),
            ins is NoOp <==> !is_assigned(opcode),
    {
        match opcode {
            0x01 => Instruction::Load(LoadType::ImmediateWord(Register::BC)),
            0x02 => Instruction::Load(LoadType::ToMemory(Register::BC, Register::A)),
            0x06 => Instruction::Load(LoadType::ImmediateByte(Register::B)),
            0x08 => Instruction::Load(LoadType::StackPointerToMemory),
            0x0A => Instruction::Load(LoadType::FromMemory(Register::A, Register::BC)),
            0x0E => Instruction::Load(LoadType::ImmediateByte(Register::C)),
            0x11 => Instruction::Load(LoadType::ImmediateWord(Register::DE)),
            0x12 => Instruction::Load(LoadType::ToMemory(Register::DE, Register::A)),
            0x16 => Instruction::Load(LoadType::ImmediateByte(Register::D)),
            0x1A => Instruction::Load(LoadType::FromMemory(Register::A, Register::DE)),
            0x1E => Instruction::Load(LoadType::ImmediateByte(Register::E)),
            0x20 => Instruction::JumpRelative(JumpCondition::NegatedFlag(Flag::Z)),
            0x21 => Instruction::Load(LoadType::ImmediateWord(Register::HL)),
            0x22 => Instruction::Load(
                LoadType::ToMemoryWithSideEffect(Register::HL, RegisterSideEffect::Inc),
            ),
            0x26 => Instruction::Load(LoadType::ImmediateByte(Register::H)),
            0x2A => Instruction::Load(
                LoadType::FromMemoryWithSideEffect(Register::HL, RegisterSideEffect::Inc),
            ),
            0x2E => Instruction::Load(LoadType::ImmediateByte(Register::L)),
            0x31 => Instruction::Load(LoadType::ImmediateWord(Register::StackPointer)),
            0x32 => Instruction::Load(
                LoadType::ToMemoryWithSideEffect(Register::HL, RegisterSideEffect::Dec),
            ),
            0x36 => Instruction::Load(LoadType::ImmediateByteToMemory(Register::HL)),
            0x3A => Instruction::Load(
                LoadType::FromMemoryWithSideEffect(Register::HL, RegisterSideEffect::Dec),
            ),
            0x3E => Instruction::Load(LoadType::ImmediateByte(Register::A)),
            0x40 => Instruction::Load(LoadType::RegToReg(Register::B, Register::B)),
            0x41 => Instruction::Load(LoadType::RegToReg(Register::B, Register::C)),
            0x42 => Instruction::Load(LoadType::RegToReg(Register::B, Register::D)),
            0x43 => Instruction::Load(LoadType::RegToReg(Register::B, Register::E)),
            0x44 => Instruction::Load(LoadType::RegToReg(Register::B, Register::H)),
            0x45 => Instruction::Load(LoadType::RegToReg(Register::B, Register::L)),
            0x46 => Instruction::Load(LoadType::FromMemory(Register::B, Register::HL)),
            0x47 => Instruction::Load(LoadType::RegToReg(Register::B, Register::A)),
            0x48 => Instruction::Load(LoadType::RegToReg(Register::C, Register::B)),
            0x49 => Instruction::Load(LoadType::RegToReg(Register::C, Register::C)),
            0x4A => Instruction::Load(LoadType::RegToReg(Register::C, Register::D)),
            0x4B => Instruction::Load(LoadType::RegToReg(Register::C, Register::E)),
            0x4C => Instruction::Load(LoadType::RegToReg(Register::C, Register::H)),
            0x4D => Instruction::Load(LoadType::RegToReg(Register::C, Register::L)),
            0x4E => Instruction::Load(LoadType::FromMemory(Register::C, Register::HL)),
            0x4F => Instruction::Load(LoadType::RegToReg(Register::C, Register::A)),
            0x50 => Instruction::Load(LoadType::RegToReg(Register::D, Register::B)),
            0x51 => Instruction::Load(LoadType::RegToReg(Register::D, Register::C)),
            0x52 => Instruction::Load(LoadType::RegToReg(Register::D, Register::D)),
            0x53 => Instruction::Load(LoadType::RegToReg(Register::D, Register::E)),
            0x54 => Instruction::Load(LoadType::RegToReg(Register::D, Register::H)),
            0x55 => Instruction::Load(LoadType::RegToReg(Register::D, Register::L)),
            0x56 => Instruction::Load(LoadType::FromMemory(Register::D, Register::HL)),
            0x57 => Instruction::Load(LoadType::RegToReg(Register::D, Register::A)),
            0x58 => Instruction::Load(LoadType::RegToReg(Register::E, Register::B)),
            0x59 => Instruction::Load(LoadType::RegToReg(Register::E, Register::C)),
            0x5A => Instruction::Load(LoadType::RegToReg(Register::E, Register::D)),
            0x5B => Instruction::Load(LoadType::RegToReg(Register::E, Register::E)),
            0x5C => Instruction::Load(LoadType::RegToReg(Register::E, Register::H)),
            0x5D => Instruction::Load(LoadType::RegToReg(Register::E, Register::L)),
            0x5E => Instruction::Load(LoadType::FromMemory(Register::E, Register::HL)),
            0x5F => Instruction::Load(LoadType::RegToReg(Register::E, Register::A)),
            0x60 => Instruction::Load(LoadType::RegToReg(Register::H, Register::B)),
            0x61 => Instruction::Load(LoadType::RegToReg(Register::H, Register::C)),
            0x62 => Instruction::Load(LoadType::RegToReg(Register::H, Register::D)),
            0x63 => Instruction::Load(LoadType::RegToReg(Register::H, Register::E)),
            0x64 => Instruction::Load(LoadType::RegToReg(Register::H, Register::H)),
            0x65 => Instruction::Load(LoadType::RegToReg(Register::H, Register::L)),
            0x66 => Instruction::Load(LoadType::FromMemory(Register::H, Register::HL)),
            0x67 => Instruction::Load(LoadType::RegToReg(Register::H, Register::A)),
            0x68 => Instruction::Load(LoadType::RegToReg(Register::L, Register::B)),
            0x69 => Instruction::Load(LoadType::RegToReg(Register::L, Register::C)),
            0x6A => Instruction::Load(LoadType::RegToReg(Register::L, Register::D)),
            0x6B => Instruction::Load(LoadType::RegToReg(Register::L, Register::E)),
            0x6C => Instruction::Load(LoadType::RegToReg(Register::L, Register::H)),
            0x6D => Instruction::Load(LoadType::RegToReg(Register::L, Register::L)),
            0x6E => Instruction::Load(LoadType::FromMemory(Register::L, Register::HL)),
            0x6F => Instruction::Load(LoadType::RegToReg(Register::L, Register::A)),
            0x70 => Instruction::Load(LoadType::ToMemory(Register::HL, Register::B)),
            0x71 => Instruction::Load(LoadType::ToMemory(Register::HL, Register::C)),
            0x72 => Instruction::Load(LoadType::ToMemory(Register::HL, Register::D)),
            0x73 => Instruction::Load(LoadType::ToMemory(Register::HL, Register::E)),
            0x74 => Instruction::Load(LoadType::ToMemory(Register::HL, Register::H)),
            0x75 => Instruction::Load(LoadType::ToMemory(Register::HL, Register::L)),
            0x77 => Instruction::Load(LoadType::ToMemory(Register::HL, Register::A)),
            0x78 => Instruction::Load(LoadType::RegToReg(Register::A, Register::B)),
            0x79 => Instruction::Load(LoadType::RegToReg(Register::A, Register::C)),
            0x7A => Instruction::Load(LoadType::RegToReg(Register::A, Register::D)),
            0x7B => Instruction::Load(LoadType::RegToReg(Register::A, Register::E)),
            0x7C => Instruction::Load(LoadType::RegToReg(Register::A, Register::H)),
            0x7D => Instruction::Load(LoadType::RegToReg(Register::A, Register::L)),
            0x7E => Instruction::Load(LoadType::FromMemory(Register::A, Register::HL)),
            0x7F => Instruction::Load(LoadType::RegToReg(Register::A, Register::A)),
            0xAF => Instruction::XOR(XORTarget::Register(Register::A)),
            0xCB => Instruction::Prefixed,
            _ => Instruction::NoOp,
        }
    }

    /// How many operand bytes follow this instruction's opcode.
    pub fn operand_bytes(&self) -> (n: usize)
        ensures
            n == operand_len(*self),
    {
        match self {
            Instruction::Load(LoadType::ImmediateWord(_)) => 2,
            Instruction::Load(LoadType::StackPointerToMemory) => 2,
            Instruction::Load(LoadType::ImmediateByte(_)) => 1,
            Instruction::Load(LoadType::ImmediateByteToMemory(_)) => 1,
            Instruction::JumpRelative(_) => 1,
            Instruction::Prefixed => 1,
            _ => 0,
        }
    }
}

impl PrefixedInstruction {
    /// Classifies the opcode byte that follows the prefix.
    pub fn decode(opcode: u8) -> (ins: Self)
        ensures
            ins == secondary(opcode),
    {
        match opcode {
            0x7C => PrefixedInstruction::Bit(7, Register::H),
            _ => PrefixedInstruction::NoOp,
        }
    }
}

} // verus!
