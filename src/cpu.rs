use vstd::prelude::*;

use crate::instructions::{
    operand_len, primary, secondary, Instruction, JumpCondition, LoadType, PrefixedInstruction,
    RegisterSideEffect, XORTarget,
};
use crate::registers::{
    flag_value, register_value, with_flag, with_register, Flag, Register, RegisterFile,
    REGISTER_BYTES,
};
use crate::utils::{bytes_to_word, word_of, word_to_bytes};

verus! {

/// Size of the address space, in bytes.
pub const MEMORY_SIZE: usize = 65536;

/// The abstract state of a CPU: program counter, register storage, memory.
pub ghost struct Machine {
    pub pc: int,
    pub regs: Seq<u8>,
    pub mem: Seq<u8>,
}

/// The `k`-th byte after the one the program counter points at.
pub open spec fn operand(m: Machine, k: int) -> u8 {
    m.mem[m.pc + k]
}

/// An address register's value after an auto-addressing access; it wraps
/// modulo 65536 at both ends.
pub open spec fn moved(address: u16, effect: RegisterSideEffect) -> u16 {
    match effect {
        RegisterSideEffect::Inc => ((address as int + 1) % 65536) as u16,
        RegisterSideEffect::Dec => ((address as int + 65535) % 65536) as u16,
    }
}

/// The effect of a load; the program counter ends on its last operand byte.
pub open spec fn load_effect(m: Machine, load: LoadType) -> Machine {
    match load {
        LoadType::ImmediateWord(reg) => Machine {
            pc: m.pc + 2,
            regs: with_register(m.regs, reg, word_of(operand(m, 2), operand(m, 1))),
            mem: m.mem,
        },
        LoadType::ImmediateByte(reg) => Machine {
            pc: m.pc + 1,
            regs: with_register(m.regs, reg, operand(m, 1) as u16),
            mem: m.mem,
        },
        LoadType::RegToReg(dst, src) => Machine {
            pc: m.pc,
            regs: with_register(m.regs, dst, register_value(m.regs, src)),
            mem: m.mem,
        },
        LoadType::ImmediateByteToMemory(reg) => Machine {
            pc: m.pc + 1,
            regs: m.regs,
            mem: m.mem.update(register_value(m.regs, reg) as int, operand(m, 1)),
        },
        LoadType::StackPointerToMemory => {
            let address = word_of(operand(m, 2), operand(m, 1)) as int;
            let sp = register_value(m.regs, Register::StackPointer) as int;
            Machine {
                pc: m.pc + 2,
                regs: m.regs,
                mem: m.mem.update(address, (sp % 256) as u8).update(address + 1, (sp / 256) as u8),
            }
        },
        LoadType::FromMemory(dst, addr_reg) => Machine {
            pc: m.pc,
            regs: with_register(
                m.regs,
                dst,
                m.mem[register_value(m.regs, addr_reg) as int] as u16,
            ),
            mem: m.mem,
        },
        LoadType::FromMemoryWithSideEffect(addr_reg, effect) => {
            let address = register_value(m.regs, addr_reg);
            Machine {
                pc: m.pc,
                regs: with_register(
                    with_register(m.regs, Register::A, m.mem[address as int] as u16),
                    addr_reg,
                    moved(address, effect),
                ),
                mem: m.mem,
            }
        },
        LoadType::ToMemory(addr_reg, src) => Machine {
            pc: m.pc,
            regs: m.regs,
            mem: m.mem.update(
                register_value(m.regs, addr_reg) as int,
                (register_value(m.regs, src) as int % 256) as u8,
            ),
        },
        LoadType::ToMemoryWithSideEffect(addr_reg, effect) => {
            let address = register_value(m.regs, addr_reg);
            Machine {
                pc: m.pc,
                regs: with_register(m.regs, addr_reg, moved(address, effect)),
                mem: m.mem.update(
                    address as int,
                    (register_value(m.regs, Register::A) as int % 256) as u8,
                ),
            }
        },
    }
}

/// The registers after an exclusive or into the accumulator: the flags
/// register is cleared, then Zero is set exactly when the result is zero.
pub open spec fn xor_effect(regs: Seq<u8>, target: XORTarget) -> Seq<u8> {
    match target {
        XORTarget::Register(reg) => {
            let result = register_value(regs, Register::A) ^ register_value(regs, reg);
            with_flag(
                with_register(with_register(regs, Register::A, result), Register::F, 0),
                Flag::Z,
                result == 0,
            )
        },
    }
}

/// Whether bit `index` of `reg` is set.
pub open spec fn bit_is_set(regs: Seq<u8>, index: u8, reg: Register) -> bool {
    (register_value(regs, reg) >> index) & 1 != 0
}

/// The registers after a bit test: Zero is the negated bit, Subtract is
/// cleared, Half carry is set, Carry is kept.
pub open spec fn bit_effect(regs: Seq<u8>, index: u8, reg: Register) -> Seq<u8> {
    with_flag(
        with_flag(with_flag(regs, Flag::Z, !bit_is_set(regs, index, reg)), Flag::N, false),
        Flag::H,
        true,
    )
}

/// The program counter after a relative jump's handler: one step onto the
/// displacement byte `d`, and when the jump is taken `d - 1` more.
pub open spec fn jump_target(m: Machine, condition: JumpCondition) -> int {
    match condition {
        JumpCondition::NegatedFlag(flag) => if !flag_value(m.regs, flag) {
            m.pc + 1 + operand(m, 1) as int - 1
        } else {
            m.pc + 1
        },
    }
}

/// The effect of a prefixed instruction; the program counter ends on the
/// secondary opcode.
pub open spec fn prefixed_effect(m: Machine) -> Machine {
    let regs = match secondary(operand(m, 1)) {
        PrefixedInstruction::Bit(index, reg) => bit_effect(m.regs, index, reg),
        PrefixedInstruction::NoOp => m.regs,
    };
    Machine { pc: m.pc + 1, regs, mem: m.mem }
}

/// The effect of an instruction's handler, before the final advance.
pub open spec fn handler_effect(m: Machine, ins: Instruction) -> Machine {
    match ins {
        Instruction::Load(load) => load_effect(m, load),
        Instruction::XOR(target) => Machine { pc: m.pc, regs: xor_effect(m.regs, target), mem: m.mem },
        Instruction::JumpRelative(condition) => Machine {
            pc: jump_target(m, condition),
            regs: m.regs,
            mem: m.mem,
        },
        Instruction::Prefixed => prefixed_effect(m),
        Instruction::NoOp => m,
    }
}

/// The effect of executing an instruction whose opcode the program counter
/// points at: the handler, then one more advance.
pub open spec fn execute_effect(m: Machine, ins: Instruction) -> Machine {
    let after = handler_effect(m, ins);
    Machine { pc: after.pc + 1, regs: after.regs, mem: after.mem }
}

/// One step: decode the byte at the program counter and execute it.
pub open spec fn step_effect(m: Machine) -> Machine {
    execute_effect(m, primary(m.mem[m.pc]))
}

/// Whether executing `ins` at `m.pc` reads and writes only inside memory.
pub open spec fn fits(m: Machine, ins: Instruction) -> bool {
    &&& 0 <= m.pc
    &&& m.pc + operand_len(ins) < MEMORY_SIZE
    &&& ins == Instruction::Load(LoadType::StackPointerToMemory) ==> word_of(
        operand(m, 2),
        operand(m, 1),
    ) as int + 1 < MEMORY_SIZE
}

/// Whether the next step stays inside memory: the opcode, its operand bytes,
/// and every address it stores to.
pub open spec fn can_step_spec(m: Machine) -> bool {
    0 <= m.pc < MEMORY_SIZE && fits(m, primary(m.mem[m.pc]))
}

/// Every instruction but the relative jump moves the program counter past its
/// opcode and its operand bytes, and no further.
pub proof fn lemma_step_length(m: Machine, ins: Instruction)
    requires
        !(ins is JumpRelative),
    ensures
        execute_effect(m, ins).pc == m.pc + 1 + operand_len(ins),
{
}

/// A relative jump moves the program counter two bytes on when it is not
/// taken, and `d` bytes further, for a displacement byte `d`, when it is.
pub proof fn lemma_jump_length(m: Machine, flag: Flag)
    ensures
        execute_effect(m, Instruction::JumpRelative(JumpCondition::NegatedFlag(flag))).pc == if flag_value(m.regs, flag) {
            m.pc + 2
        } else {
            m.pc + 1 + operand(m, 1) as int
        },
{
}

/// A CPU: program counter, register file and 64 KiB of memory.
pub struct CPU {
    program_counter: usize,
    registers: RegisterFile,
    memory: Vec<u8>,
}

impl View for CPU {
    type V = Machine;

    closed spec fn view(&self) -> Machine {
        Machine { pc: self.program_counter as int, regs: self.registers@, mem: self.memory@ }
    }
}

impl CPU {
    /// Memory covers the whole address space and the register storage holds
    /// its ten bytes.
    pub open spec fn wf(&self) -> bool {
        self@.mem.len() == MEMORY_SIZE && self@.regs.len() == REGISTER_BYTES
    }

    /// A CPU with zeroed registers, zeroed memory and the program counter at 0.
    pub fn new() -> (cpu: Self)
        ensures
            cpu.wf(),
            cpu@.pc == 0,
            cpu@.regs == Seq::new(REGISTER_BYTES as nat, |i: int| 0u8),
            cpu@.mem == Seq::new(MEMORY_SIZE as nat, |i: int| 0u8),
    {
        let registers = RegisterFile::new();
        let memory: Vec<u8> = vec![0u8; MEMORY_SIZE];
        let cpu = CPU { program_counter: 0, registers, memory };
        assert(cpu@.mem =~= Seq::new(MEMORY_SIZE as nat, |i: int| 0u8));
        cpu
    }
    /// The byte stored at `address`.
    pub fn read_memory(&self, address: usize) -> (value: u8)
        requires
            self.wf(),
            address < MEMORY_SIZE,
        ensures
            value == self@.mem[address as int],
    {
        self.memory[address]
    }

    /// Stores `value` at `address`; nothing else changes.
    pub fn write_memory(&mut self, address: usize, value: u8)
        requires
            old(self).wf(),
            address < MEMORY_SIZE,
        ensures
            final(self).wf(),
            final(self)@ == (Machine { mem: old(self)@.mem.update(address as int, value), ..old(self)@ }),
    {
        self.memory.set(address, value);
    }

    /// Advances over two operand bytes and joins them, low byte first.
    fn get_immediate_word(&mut self) -> (word: u16)
        requires
            old(self).wf(),
            old(self)@.pc + 2 < MEMORY_SIZE,
        ensures
            final(self).wf(),
            final(self)@ == (Machine { pc: old(self)@.pc + 2, ..old(self)@ }),
            word == word_of(operand(old(self)@, 2), operand(old(self)@, 1)),
    {
        self.program_counter += 1;
        let lower_byte = self.read_memory(self.program_counter);
        self.program_counter += 1;
        let higher_byte = self.read_memory(self.program_counter);
        bytes_to_word(higher_byte, lower_byte)
    }

    /// Runs a load; the program counter ends on its last operand byte.
    fn execute_load_instruction(&mut self, load_type: LoadType)
        requires
            old(self).wf(),
            fits(old(self)@, Instruction::Load(load_type)),
        ensures
            final(self).wf(),
            final(self)@ == load_effect(old(self)@, load_type),
    {
        match load_type {
            LoadType::ImmediateWord(reg) => {
                let word = self.get_immediate_word();
                self.registers.write_register(reg, word);
            },
            LoadType::ImmediateByte(reg) => {
                self.program_counter += 1;
                let byte = self.read_memory(self.program_counter);
                self.registers.write_register(reg, byte as u16);
            },
            LoadType::RegToReg(reg, other_reg) => {
                let value = self.registers.read_register(other_reg);
                self.registers.write_register(reg, value);
            },
            LoadType::ImmediateByteToMemory(reg) => {
                self.program_counter += 1;
                let byte = self.read_memory(self.program_counter);
                let address = self.registers.read_register(reg);
                self.write_memory(address as usize, byte);
            },
            LoadType::StackPointerToMemory => {
                let address = self.get_immediate_word() as usize;
                let sp = self.registers.read_register(Register::StackPointer);
                let (high, low) = word_to_bytes(sp);
                self.write_memory(address, low);
                self.write_memory(address + 1, high);
            },
            LoadType::FromMemory(destination, address_reg) => {
                let address = self.registers.read_register(address_reg) as usize;
                let value = self.read_memory(address) as u16;
                self.registers.write_register(destination, value);
            },
            LoadType::FromMemoryWithSideEffect(reg, side_effect) => {
                let address = self.registers.read_register(reg);
                let value = self.read_memory(address as usize) as u16;
                self.registers.write_register(Register::A, value);
                match side_effect {
                    RegisterSideEffect::Inc => self.registers.write_register(
                        reg,
                        address.wrapping_add(1),
                    ),
                    RegisterSideEffect::Dec => self.registers.write_register(
                        reg,
                        address.wrapping_sub(1),
                    ),
                }
            },
            LoadType::ToMemory(address_reg, source) => {
                let address = self.registers.read_register(address_reg) as usize;
                let value = self.registers.read_register(source);
                assert(value as u8 == value as int % 256) by (bit_vector);
                self.write_memory(address, value as u8);
            },
            LoadType::ToMemoryWithSideEffect(reg, side_effect) => {
                let address = self.registers.read_register(reg);
                let value = self.registers.read_register(Register::A);
                assert(value as u8 == value as int % 256) by (bit_vector);
                self.write_memory(address as usize, value as u8);
                match side_effect {
                    RegisterSideEffect::Inc => self.registers.write_register(
                        reg,
                        address.wrapping_add(1),
                    ),
                    RegisterSideEffect::Dec => self.registers.write_register(
                        reg,
                        address.wrapping_sub(1),
                    ),
                }
            },
        }
    }
    /// XORs the target into the accumulator and resets the flags from the result.
    fn execute_xor_instruction(&mut self, target: XORTarget)
        requires
            old(self).wf(),
        ensures
            final(self).wf(),
            final(self)@ == (Machine { regs: xor_effect(old(self)@.regs, target), ..old(self)@ }),
    {
        match target {
            XORTarget::Register(reg) => {
                let a_reg = self.registers.read_register(Register::A);
                let val = self.registers.read_register(reg);
                let xor_result = a_reg ^ val;
                self.registers.write_register(Register::A, xor_result);
                self.registers.write_register(Register::F, 0);
                self.registers.set_flag(Flag::Z, xor_result == 0);
            },
        }
    }

    /// Tests bit `index` of `reg` into the flags.
    fn execute_bit_instruction(&mut self, index: u8, reg: Register)
        requires
            old(self).wf(),
            index < 8,
        ensures
            final(self).wf(),
            final(self)@ == (Machine { regs: bit_effect(old(self)@.regs, index, reg), ..old(self)@ }),
    {
        let value = self.registers.read_register(reg);
        let bit = (value >> index) & 1 != 0;
        self.registers.set_flag(Flag::Z, !bit);
        self.registers.set_flag(Flag::N, false);
        self.registers.set_flag(Flag::H, true);
    }

    /// Reads the displacement byte and jumps when the condition holds.
    fn execute_jump_relative(&mut self, condition: JumpCondition)
        requires
            old(self).wf(),
            old(self)@.pc + 1 < MEMORY_SIZE,
        ensures
            final(self).wf(),
            final(self)@ == (Machine { pc: jump_target(old(self)@, condition), ..old(self)@ }),
    {
        self.program_counter += 1;
        let steps = self.read_memory(self.program_counter);
        match condition {
            JumpCondition::NegatedFlag(flag) => {
                if !self.registers.get_flag(flag) {
                    // The final advance of every step adds one more.
                    self.program_counter = self.program_counter + steps as usize - 1;
                }
            },
        }
    }

    /// Moves onto the secondary opcode, decodes it and runs it.
    fn execute_prefixed_instruction(&mut self)
        requires
            old(self).wf(),
            old(self)@.pc + 1 < MEMORY_SIZE,
        ensures
            final(self).wf(),
            final(self)@ == prefixed_effect(old(self)@),
    {
        // A prefixed instruction is two bytes long.
        self.program_counter += 1;
        let opcode = self.read_memory(self.program_counter);
        let instruction = PrefixedInstruction::decode(opcode);
        match instruction {
            PrefixedInstruction::Bit(index, reg) => self.execute_bit_instruction(index, reg),
            PrefixedInstruction::NoOp => (),
        };
    }

    /// Runs an instruction's handler, then advances past its last byte.
    fn execute(&mut self, instruction: Instruction)
        requires
            old(self).wf(),
            fits(old(self)@, instruction),
        ensures
            final(self).wf(),
            final(self)@ == execute_effect(old(self)@, instruction),
    {
        match instruction {
            Instruction::XOR(target) => self.execute_xor_instruction(target),
            Instruction::Load(load_type) => self.execute_load_instruction(load_type),
            Instruction::Prefixed => self.execute_prefixed_instruction(),
            Instruction::JumpRelative(condition) => self.execute_jump_relative(condition),
            Instruction::NoOp => (),
        };
        self.program_counter += 1;
    }

    /// Executes the instruction at the program counter and advances the
    /// program counter to the next one.
    pub fn step(&mut self)
        requires
            old(self).wf(),
            can_step_spec(old(self)@),
        ensures
            final(self).wf(),
            final(self)@ == step_effect(old(self)@),
    {
        let opcode = self.read_memory(self.program_counter);
        let instruction = Instruction::decode(opcode);
        self.execute(instruction);
    }
    /// Whether `step` may run now: the program counter, the operand bytes of
    /// the instruction there, and every address it stores to lie in memory.
    pub fn can_step(&self) -> (ok: bool)
        requires
            self.wf(),
        ensures
            ok == can_step_spec(self@),
    {
        let pc = self.program_counter;
        if pc >= MEMORY_SIZE {
            return false;
        }
        let instruction = Instruction::decode(self.read_memory(pc));
        if pc + instruction.operand_bytes() >= MEMORY_SIZE {
            return false;
        }
        match instruction {
            Instruction::Load(LoadType::StackPointerToMemory) => {
                let address = bytes_to_word(self.read_memory(pc + 2), self.read_memory(pc + 1));
                (address as usize) + 1 < MEMORY_SIZE
            },
            _ => true,
        }
    }

    /// The program counter.
    pub fn program_counter(&self) -> (pc: usize)
        ensures
            pc == self@.pc,
    {
        self.program_counter
    }

    /// The register file.
    pub fn registers(&self) -> (registers: &RegisterFile)
        ensures
            registers@ == self@.regs,
    {
        &self.registers
    }

    /// Writes a register, as `RegisterFile::write_register` does; memory and
    /// the program counter are kept.
    pub fn write_register(&mut self, reg: Register, value: u16)
        requires
            old(self).wf(),
        ensures
            final(self).wf(),
            final(self)@ == (Machine { regs: with_register(old(self)@.regs, reg, value), ..old(self)@ }),
    {
        self.registers.write_register(reg, value);
    }
}

} // verus!
