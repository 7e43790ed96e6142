use vstd::prelude::*;

use crate::utils::{bytes_to_word, word_to_bytes};

verus! {

/// A register name: the eight 8-bit registers, the four pairs that join two of
/// them into a 16-bit register, and the 16-bit stack pointer.
#[derive(Clone, Copy, Debug, PartialEq, Eq, Structural)]
pub enum Register {
    /// Accumulator.
    A,
    /// Flags.
    F,
    B,
    C,
    D,
    E,
    H,
    L,
    /// Accumulator and flags.
    AF,
    BC,
    DE,
    HL,
    StackPointer,
}

/// A named bit of the flags register.
#[derive(Clone, Copy, Debug, PartialEq, Eq, Structural)]
pub enum Flag {
    /// Zero, bit 7.
    Z,
    /// Subtract, bit 6.
    N,
    /// Half carry, bit 5.
    H,
    /// Carry, bit 4.
    C,
}

/// Number of bytes of register storage.
pub const REGISTER_BYTES: usize = 10;

/// Index of the flags register in the register storage.
pub const FLAGS_SLOT: usize = 1;

/// Whether the name denotes a 16-bit register.
pub open spec fn is_wide(reg: Register) -> bool {
    match reg {
        Register::AF | Register::BC | Register::DE | Register::HL | Register::StackPointer => true,
        _ => false,
    }
}

/// The storage byte of an 8-bit register, or the high byte of a 16-bit one;
/// the low byte of a 16-bit register is the next one.
pub open spec fn slot(reg: Register) -> int {
    match reg {
        Register::A => 0,
        Register::F => 1,
        Register::B => 2,
        Register::C => 3,
        Register::D => 4,
        Register::E => 5,
        Register::H => 6,
        Register::L => 7,
        Register::AF => 0,
        Register::BC => 2,
        Register::DE => 4,
        Register::HL => 6,
        Register::StackPointer => 8,
    }
}

/// The value of `reg` in the register storage `regs`.
#[verifier::opaque]
pub open spec fn register_value(regs: Seq<u8>, reg: Register) -> u16 {
    if is_wide(reg) {
        (regs[slot(reg)] as int * 256 + regs[slot(reg) + 1] as int) as u16
    } else {
        regs[slot(reg)] as u16
    }
}

/// The register storage after `value` is written to `reg`: the high byte first
/// and the low byte next for a 16-bit register, the low byte alone for an
/// 8-bit one.
#[verifier::opaque]
pub open spec fn with_register(regs: Seq<u8>, reg: Register, value: u16) -> Seq<u8> {
    if is_wide(reg) {
        regs.update(slot(reg), (value as int / 256) as u8).update(
            slot(reg) + 1,
            (value as int % 256) as u8,
        )
    } else {
        regs.update(slot(reg), (value as int % 256) as u8)
    }
}

/// The bit of the flags register that holds `flag`.
pub open spec fn flag_mask(flag: Flag) -> u8 {
    match flag {
        Flag::Z => 0x80,
        Flag::N => 0x40,
        Flag::H => 0x20,
        Flag::C => 0x10,
    }
}

/// Whether `flag` is set in the register storage `regs`.
#[verifier::opaque]
pub open spec fn flag_value(regs: Seq<u8>, flag: Flag) -> bool {
    regs[FLAGS_SLOT as int] & flag_mask(flag) != 0
}

/// The register storage after `flag` is set to `value`.
#[verifier::opaque]
pub open spec fn with_flag(regs: Seq<u8>, flag: Flag, value: bool) -> Seq<u8> {
    let flags = regs[FLAGS_SLOT as int];
    regs.update(
        FLAGS_SLOT as int,
        if value {
            flags | flag_mask(flag)
        } else {
            flags & !flag_mask(flag)
        },
    )
}

/// The high half of a register pair (the stack pointer has no named halves).
pub open spec fn high_half(pair: Register) -> Register {
    match pair {
        Register::AF => Register::A,
        Register::BC => Register::B,
        Register::DE => Register::D,
        _ => Register::H,
    }
}

/// The low half of a register pair.
pub open spec fn low_half(pair: Register) -> Register {
    match pair {
        Register::AF => Register::F,
        Register::BC => Register::C,
        Register::DE => Register::E,
        _ => Register::L,
    }
}

/// Reading a 16-bit register after writing `value` to it gives `value`.
pub proof fn lemma_write_read_wide(regs: Seq<u8>, reg: Register, value: u16)
    requires
        regs.len() == REGISTER_BYTES,
        is_wide(reg),
    ensures
        register_value(with_register(regs, reg, value), reg) == value,
{
    reveal(register_value);
    reveal(with_register);
}

/// Reading an 8-bit register after writing `value` to it gives the low byte
/// of `value`.
pub proof fn lemma_write_read_narrow(regs: Seq<u8>, reg: Register, value: u16)
    requires
        regs.len() == REGISTER_BYTES,
        !is_wide(reg),
    ensures
        register_value(with_register(regs, reg, value), reg) == value & 0xFF,
{
    reveal(register_value);
    reveal(with_register);
    assert(value as int % 256 == value & 0xFF) by (bit_vector);
}

/// Writing a pair's high half, then its low half, and reading the pair gives
/// `(high << 8) | low` of the two bytes written.
pub proof fn lemma_pair_from_halves(regs: Seq<u8>, pair: Register, high: u16, low: u16)
    requires
        regs.len() == REGISTER_BYTES,
        pair == Register::AF || pair == Register::BC || pair == Register::DE || pair == Register::HL,
    ensures
        register_value(
            with_register(with_register(regs, high_half(pair), high), low_half(pair), low),
            pair,
        ) == ((high & 0xFF) << 8) | (low & 0xFF),
{
    reveal(register_value);
    reveal(with_register);
    assert(((high as int % 256) * 256 + low as int % 256) as u16 == ((high & 0xFF) << 8) | (low
        & 0xFF)) by (bit_vector);
}

/// Writing one register leaves every storage byte outside its own untouched.
pub proof fn lemma_write_keeps_others(regs: Seq<u8>, reg: Register, value: u16, i: int)
    requires
        regs.len() == REGISTER_BYTES,
        0 <= i < REGISTER_BYTES,
        i != slot(reg),
        !(is_wide(reg) && i == slot(reg) + 1),
    ensures
        with_register(regs, reg, value)[i] == regs[i],
        with_register(regs, reg, value).len() == REGISTER_BYTES,
{
    reveal(with_register);
}

/// After a flag is set to `value` it reads `value`, and every other flag reads
/// as before.
pub proof fn lemma_set_then_get_flag(regs: Seq<u8>, flag: Flag, value: bool, other: Flag)
    requires
        regs.len() == REGISTER_BYTES,
    ensures
        flag_value(with_flag(regs, flag, value), flag) == value,
        other != flag ==> flag_value(with_flag(regs, flag, value), other) == flag_value(
            regs,
            other,
        ),
{
    reveal(flag_value);
    reveal(with_flag);
    let f = regs[FLAGS_SLOT as int];
    let m = flag_mask(flag);
    let o = flag_mask(other);
    assert(m == 0x80 || m == 0x40 || m == 0x20 || m == 0x10);
    assert(o == 0x80 || o == 0x40 || o == 0x20 || o == 0x10);
    assert((other != flag) ==> m != o);
    assert((f | m) & m != 0 && (f & !m) & m == 0) by (bit_vector)
        requires
            m == 0x80 || m == 0x40 || m == 0x20 || m == 0x10,
    ;
    assert(m != o ==> (((f | m) & o != 0) == (f & o != 0)) && (((f & !m) & o != 0) == (f & o
        != 0))) by (bit_vector)
        requires
            m == 0x80 || m == 0x40 || m == 0x20 || m == 0x10,
            o == 0x80 || o == 0x40 || o == 0x20 || o == 0x10,
    ;
}

/// Setting or clearing a flag leaves the four unused low bits of the flags
/// register as they were.
pub proof fn lemma_set_flag_keeps_low_bits(regs: Seq<u8>, flag: Flag, value: bool)
    requires
        regs.len() == REGISTER_BYTES,
    ensures
        with_flag(regs, flag, value)[FLAGS_SLOT as int] & 0x0F == regs[FLAGS_SLOT as int] & 0x0F,
{
    reveal(with_flag);
    let f = regs[FLAGS_SLOT as int];
    let m = flag_mask(flag);
    assert(m == 0x80 || m == 0x40 || m == 0x20 || m == 0x10);
    assert((f | m) & 0x0F == f & 0x0F && (f & !m) & 0x0F == f & 0x0F) by (bit_vector)
        requires
            m == 0x80 || m == 0x40 || m == 0x20 || m == 0x10,
    ;
}

/// The register storage: ten bytes, A F B C D E H L and the stack pointer's
/// high and low byte. The pairs are views over two adjacent bytes.
pub struct RegisterFile {
    register_data: [u8; 10],
}

impl View for RegisterFile {
    type V = Seq<u8>;

    closed spec fn view(&self) -> Seq<u8> {
        self.register_data@
    }
}

impl RegisterFile {
    /// The storage always holds ten bytes.
    pub proof fn lemma_len(&self)
        ensures
            self@.len() == REGISTER_BYTES,
    {
    }

    /// A register file with every byte zero.
    pub fn new() -> (r: Self)
        ensures
            r@ == Seq::new(REGISTER_BYTES as nat, |i: int| 0u8),
    {
        let register_data = [0u8; 10];
        let r = RegisterFile { register_data };
        assert(r@ =~= Seq::new(REGISTER_BYTES as nat, |i: int| 0u8));
        r
    }

    /// Reads the value of a register; an 8-bit register reads zero-extended.
    pub fn read_register(&self, reg: Register) -> (value: u16)
        ensures
            value == register_value(self@, reg),
    {
        proof {
            reveal(register_value);
        }
        match reg {
            Register::A => self.register_data[0] as u16,
            Register::F => self.register_data[1] as u16,
            Register::B => self.register_data[2] as u16,
            Register::C => self.register_data[3] as u16,
            Register::D => self.register_data[4] as u16,
            Register::E => self.register_data[5] as u16,
            Register::H => self.register_data[6] as u16,
            Register::L => self.register_data[7] as u16,
            Register::AF => self.get_word(0),
            Register::BC => self.get_word(2),
            Register::DE => self.get_word(4),
            Register::HL => self.get_word(6),
            Register::StackPointer => self.get_word(8),
        }
    }
    /// Writes a register. An 8-bit register keeps the low byte of `value` and
    /// leaves its pair-mate alone; a 16-bit register takes the high byte into
    /// its first storage byte and the low byte into the second.
    pub fn write_register(&mut self, reg: Register, value: u16)
        ensures
            final(self)@ == with_register(old(self)@, reg, value),
            final(self)@.len() == REGISTER_BYTES,
    {
        proof {
            reveal(with_register);
        }
        assert(value as u8 == value as int % 256) by (bit_vector);
        match reg {
            Register::A => self.register_data[0] = value as u8,
            Register::F => self.register_data[1] = value as u8,
            Register::B => self.register_data[2] = value as u8,
            Register::C => self.register_data[3] = value as u8,
            Register::D => self.register_data[4] = value as u8,
            Register::E => self.register_data[5] = value as u8,
            Register::H => self.register_data[6] = value as u8,
            Register::L => self.register_data[7] = value as u8,
            Register::AF => self.set_word(0, value),
            Register::BC => self.set_word(2, value),
            Register::DE => self.set_word(4, value),
            Register::HL => self.set_word(6, value),
            Register::StackPointer => self.set_word(8, value),
        };
    }

    fn set_word(&mut self, index: usize, value: u16)
        requires
            index + 1 < REGISTER_BYTES,
        ensures
            final(self)@ == old(self)@.update(index as int, (value as int / 256) as u8).update(
                index + 1,
                (value as int % 256) as u8,
            ),
    {
        let (higher_byte, lower_byte) = word_to_bytes(value);
        self.register_data[index] = higher_byte;
        self.register_data[index + 1] = lower_byte;
    }

    fn get_word(&self, index: usize) -> (word: u16)
        requires
            index + 1 < REGISTER_BYTES,
        ensures
            word as int == self@[index as int] as int * 256 + self@[index + 1] as int,
    {
        bytes_to_word(self.register_data[index], self.register_data[index + 1])
    }

    /// Reads one named bit of the flags register.
    pub fn get_flag(&self, flag: Flag) -> (set: bool)
        ensures
            set == flag_value(self@, flag),
    {
        proof {
            reveal(flag_value);
        }
        let flags: u8 = self.register_data[1];
        assert(((flags >> 7) & 1 != 0) == (flags & 0x80 != 0)) by (bit_vector);
        assert(((flags >> 6) & 1 != 0) == (flags & 0x40 != 0)) by (bit_vector);
        assert(((flags >> 5) & 1 != 0) == (flags & 0x20 != 0)) by (bit_vector);
        assert(((flags >> 4) & 1 != 0) == (flags & 0x10 != 0)) by (bit_vector);
        match flag {
            Flag::Z => ((flags >> 7) & 1) != 0,
            Flag::N => ((flags >> 6) & 1) != 0,
            Flag::H => ((flags >> 5) & 1) != 0,
            Flag::C => ((flags >> 4) & 1) != 0,
        }
    }

    /// Sets or clears one named bit of the flags register; every other bit of
    /// the storage is kept.
    pub fn set_flag(&mut self, flag: Flag, value: bool)
        ensures
            final(self)@ == with_flag(old(self)@, flag, value),
            final(self)@.len() == REGISTER_BYTES,
    {
        proof {
            reveal(with_flag);
        }
        let bitmask: u8 = match flag {
            Flag::Z => 1 << 7,
            Flag::N => 1 << 6,
            Flag::H => 1 << 5,
            Flag::C => 1 << 4,
        };
        assert(1u8 << 7u8 == 0x80 && 1u8 << 6u8 == 0x40 && 1u8 << 5u8 == 0x20 && 1u8 << 4u8 == 0x10)
            by (bit_vector);
        self.register_data[1] = if value {
            self.register_data[1] | bitmask
        } else {
            self.register_data[1] & !bitmask
        };
    }
}

} // verus!
