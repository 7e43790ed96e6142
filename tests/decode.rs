use cpu_core::instructions::{
    Instruction, JumpCondition, LoadType, PrefixedInstruction, RegisterSideEffect, XORTarget,
};
use cpu_core::registers::{Flag, Register};

#[test]
fn unassigned_opcodes_decode_to_no_op() {
    for opcode in [0x00u8, 0x03, 0x10, 0x76, 0x80, 0xAE, 0xC3, 0xFF] {
        assert_eq!(Instruction::decode(opcode), Instruction::NoOp);
    }
}

#[test]
fn decode_is_total_and_counts_assigned_opcodes() {
    let mut assigned: u32 = 0;
    for opcode in 0..=255u8 {
        if Instruction::decode(opcode) != Instruction::NoOp {
            assigned += 1;
        }
    }
    // 22 in the first quarter, 63 loads between registers and memory, XOR A, the prefix.
    assert_eq!(assigned, 22 + 63 + 2);
}

#[test]
fn decode_first_quarter() {
    assert_eq!(Instruction::decode(0x01), Instruction::Load(LoadType::ImmediateWord(Register::BC)));
    assert_eq!(
        Instruction::decode(0x31),
        Instruction::Load(LoadType::ImmediateWord(Register::StackPointer))
    );
    assert_eq!(
        Instruction::decode(0x12),
        Instruction::Load(LoadType::ToMemory(Register::DE, Register::A))
    );
    assert_eq!(
        Instruction::decode(0x22),
        Instruction::Load(LoadType::ToMemoryWithSideEffect(Register::HL, RegisterSideEffect::Inc))
    );
    assert_eq!(
        Instruction::decode(0x3A),
        Instruction::Load(LoadType::FromMemoryWithSideEffect(Register::HL, RegisterSideEffect::Dec))
    );
    assert_eq!(
        Instruction::decode(0x0A),
        Instruction::Load(LoadType::FromMemory(Register::A, Register::BC))
    );
    assert_eq!(Instruction::decode(0x3E), Instruction::Load(LoadType::ImmediateByte(Register::A)));
    assert_eq!(
        Instruction::decode(0x36),
        Instruction::Load(LoadType::ImmediateByteToMemory(Register::HL))
    );
    assert_eq!(Instruction::decode(0x08), Instruction::Load(LoadType::StackPointerToMemory));
    assert_eq!(
        Instruction::decode(0x20),
        Instruction::JumpRelative(JumpCondition::NegatedFlag(Flag::Z))
    );
}

#[test]
fn decode_register_loads() {
    assert_eq!(
        Instruction::decode(0x41),
        Instruction::Load(LoadType::RegToReg(Register::B, Register::C))
    );
    assert_eq!(
        Instruction::decode(0x7C),
        Instruction::Load(LoadType::RegToReg(Register::A, Register::H))
    );
    assert_eq!(
        Instruction::decode(0x5E),
        Instruction::Load(LoadType::FromMemory(Register::E, Register::HL))
    );
    assert_eq!(
        Instruction::decode(0x77),
        Instruction::Load(LoadType::ToMemory(Register::HL, Register::A))
    );
}

#[test]
fn decode_xor_and_prefix() {
    assert_eq!(Instruction::decode(0xAF), Instruction::XOR(XORTarget::Register(Register::A)));
    assert_eq!(Instruction::decode(0xCB), Instruction::Prefixed);
}

#[test]
fn decode_secondary_table() {
    assert_eq!(PrefixedInstruction::decode(0x7C), PrefixedInstruction::Bit(7, Register::H));
    for opcode in 0..=255u8 {
        if opcode != 0x7C {
            assert_eq!(PrefixedInstruction::decode(opcode), PrefixedInstruction::NoOp);
        }
    }
}

#[test]
fn operand_bytes_per_instruction() {
    assert_eq!(Instruction::decode(0x01).operand_bytes(), 2);
    assert_eq!(Instruction::decode(0x08).operand_bytes(), 2);
    assert_eq!(Instruction::decode(0x06).operand_bytes(), 1);
    assert_eq!(Instruction::decode(0x36).operand_bytes(), 1);
    assert_eq!(Instruction::decode(0x20).operand_bytes(), 1);
    assert_eq!(Instruction::decode(0xCB).operand_bytes(), 1);
    assert_eq!(Instruction::decode(0x41).operand_bytes(), 0);
    assert_eq!(Instruction::decode(0x00).operand_bytes(), 0);
}
