//! The SM83 register bank and its flag register.
//!
//! Eight 8-bit general-purpose registers, a flag register whose four high
//! bits carry meaning, the 16-bit program counter and stack pointer, and the
//! two clock counters. Register pairs are views: a 16-bit value is always
//! derived from two 8-bit cells by `combined` and written back by `split`,
//! with the first cell as the low byte and the second as the high byte.

use vstd::prelude::*;

verus! {

/// One of the four meaningful bits of the flag register.
pub enum Flag {
    Zero,
    Subtract,
    HalfCarry,
    Carry,
}

/// The bit that a flag occupies in the flag register byte.
pub open spec fn flag_mask(flag: Flag) -> u8 {
    match flag {
        Flag::Zero => 0x80,
        Flag::Subtract => 0x40,
        Flag::HalfCarry => 0x20,
        Flag::Carry => 0x10,
    }
}

/// True iff the flag's bit is set in the given flag register byte.
pub open spec fn flag_set(bits: u8, flag: Flag) -> bool {
    bits & flag_mask(flag) != 0
}

impl Flag {
    /// The flag's bit as a byte mask.
    pub fn value(&self) -> (r: u8)
        ensures
            r == flag_mask(*self),
    {
        match self {
            Flag::Zero => 0b1000_0000,
            Flag::Subtract => 0b0100_0000,
            Flag::HalfCarry => 0b0010_0000,
            Flag::Carry => 0b0001_0000,
        }
    }
}

/// A single byte whose bits 7-4 are the Zero, Subtract, HalfCarry and Carry
/// flags; bits 3-0 stay zero because no operation ever sets them.
#[derive(Debug, Clone)]
pub struct FlagRegister {
    value: u8,
}

impl View for FlagRegister {
    type V = u8;

    closed spec fn view(&self) -> u8 {
        self.value
    }
}

impl FlagRegister {
    /// A flag register with every bit clear.
    pub fn new() -> (r: Self)
        ensures
            r@ == 0u8,
    {
        FlagRegister { value: 0b0000_0000 }
    }

    /// Check if a given bit is set.
    pub fn check(&mut self, flag: Flag) -> (r: bool)
        ensures
            *final(self) == *old(self),
            r == flag_set(old(self)@, flag),
    {
        proof {
            let v = self.value;
            assert((0x80u8 & v == 0x80u8) == (v & 0x80u8 != 0)) by (bit_vector);
            assert((0x40u8 & v == 0x40u8) == (v & 0x40u8 != 0)) by (bit_vector);
            assert((0x20u8 & v == 0x20u8) == (v & 0x20u8 != 0)) by (bit_vector);
            assert((0x10u8 & v == 0x10u8) == (v & 0x10u8 != 0)) by (bit_vector);
        }
        let mask = flag.value();
        (mask & self.value) == mask
    }

    /// Set a given bit.
    pub fn set(&mut self, flag: Flag)
        ensures
            final(self)@ == old(self)@ | flag_mask(flag),
            old(self)@ == 0 ==> final(self)@ == flag_mask(flag),
    {
        let mask = flag.value();
        proof {
            assert(0u8 | mask == mask) by (bit_vector);
        }
        self.value = self.value | mask;
    }

    /// Clear a given bit.
    pub fn unset(&mut self, flag: Flag)
        ensures
            final(self)@ == old(self)@ & !flag_mask(flag),
    {
        self.value = self.value & !flag.value();
    }

    /// Clear all flags.
    pub fn clear(&mut self)
        ensures
            final(self)@ == 0u8,
    {
        self.value = 0b0000_0000;
    }
}

/// The mathematical value of a register pair: the first cell is the low
/// byte, the second the high byte.
pub open spec fn spec_combine(low: u8, high: u8) -> u16 {
    (low + high * 256) as u16
}

/// The low byte of a 16-bit value.
pub open spec fn spec_low(value: u16) -> u8 {
    (value % 256) as u8
}

/// The high byte of a 16-bit value.
pub open spec fn spec_high(value: u16) -> u8 {
    (value / 256) as u8
}

/// The register bank as plain numbers: the ghost mirror of
/// `SM83RegisterBank`, with the flag register as its byte.
pub struct BankView {
    pub a: u8,
    pub b: u8,
    pub c: u8,
    pub d: u8,
    pub e: u8,
    pub h: u8,
    pub l: u8,
    pub flags: u8,
    pub pc: u16,
    pub sp: u16,
    pub m: u8,
    pub t: u8,
}

/// The registers of the SM83: eight 8-bit cells, the flag register, the
/// 16-bit program counter and stack pointer, and the clock counters `m`
/// (machine cycles of the last instruction) and `t` (= `m` times 4).
#[derive(Debug, Clone)]
pub struct SM83RegisterBank {
    pub a: u8,
    pub b: u8,
    pub c: u8,
    pub d: u8,
    pub e: u8,
    pub h: u8,
    pub l: u8,
    pub flags: FlagRegister,

    pub pc: u16,
    pub sp: u16,

    pub m: u8,
    pub t: u8,
}

impl View for SM83RegisterBank {
    type V = BankView;

    open spec fn view(&self) -> BankView {
        BankView {
            a: self.a,
            b: self.b,
            c: self.c,
            d: self.d,
            e: self.e,
            h: self.h,
            l: self.l,
            flags: self.flags@,
            pc: self.pc,
            sp: self.sp,
            m: self.m,
            t: self.t,
        }
    }
}

/// A register bank with every cell, counter and flag at zero.
pub open spec fn zero_bank() -> BankView {
    BankView {
        a: 0u8,
        b: 0u8,
        c: 0u8,
        d: 0u8,
        e: 0u8,
        h: 0u8,
        l: 0u8,
        flags: 0u8,
        pc: 0u16,
        sp: 0u16,
        m: 0u8,
        t: 0u8,
    }
}

impl SM83RegisterBank {
    /// A register bank with every cell, counter and flag at zero.
    pub fn new() -> (r: Self)
        ensures
            r@ == zero_bank(),
    {
        SM83RegisterBank {
            a: 0,
            b: 0,
            c: 0,
            d: 0,
            e: 0,
            h: 0,
            l: 0,
            flags: FlagRegister::new(),
            pc: 0,
            sp: 0,
            m: 0,
            t: 0,
        }
    }

    /// Helper function to get the value of a 16-bit register: `first` is the
    /// low byte and `second` the high byte of the result.
    pub fn combined(&self, first: u8, second: u8) -> (r: u16)
        ensures
            r == spec_combine(first, second),
    {
        first as u16 + second as u16 * 256
    }

    /// The inverse of `combined`: the low byte, then the high byte.
    pub fn split(&mut self, value: u16) -> (r: [u8; 2])
        ensures
            *final(self) == *old(self),
            r[0] == spec_low(value),
            r[1] == spec_high(value),
    {
        [(value % 256) as u8, (value / 256) as u8]
    }

    /// The HL pair: H is the low byte, L the high byte.
    pub fn hl(&self) -> (r: u16)
        ensures
            r == spec_combine(self.h, self.l),
    {
        self.combined(self.h, self.l)
    }

    /// Store a 16-bit value into the HL pair: H takes the low byte, L the
    /// high byte. No other cell changes.
    pub fn set_hl(&mut self, value: u16)
        ensures
            final(self)@ == (BankView { h: spec_low(value), l: spec_high(value), ..old(self)@ }),
    {
        let parts = self.split(value);

        self.h = parts[0];
        self.l = parts[1];
    }
}

/// The name of one 8-bit register cell.
#[derive(Debug, Clone, Copy, PartialEq, Eq, Structural)]
pub enum Reg8 {
    A,
    B,
    C,
    D,
    E,
    H,
    L,
}

/// The name of one register pair. The first cell of a pair holds the low
/// byte of its combined value, the second cell the high byte.
#[derive(Debug, Clone, Copy, PartialEq, Eq, Structural)]
pub enum RegPair {
    BC,
    DE,
    HL,
}

/// The cell that holds the low byte of a pair's combined value.
pub open spec fn pair_low(pair: RegPair) -> Reg8 {
    match pair {
        RegPair::BC => Reg8::B,
        RegPair::DE => Reg8::D,
        RegPair::HL => Reg8::H,
    }
}

/// The cell that holds the high byte of a pair's combined value.
pub open spec fn pair_high(pair: RegPair) -> Reg8 {
    match pair {
        RegPair::BC => Reg8::C,
        RegPair::DE => Reg8::E,
        RegPair::HL => Reg8::L,
    }
}

/// The value of one 8-bit cell of the bank.
pub open spec fn get8(bank: BankView, reg: Reg8) -> u8 {
    match reg {
        Reg8::A => bank.a,
        Reg8::B => bank.b,
        Reg8::C => bank.c,
        Reg8::D => bank.d,
        Reg8::E => bank.e,
        Reg8::H => bank.h,
        Reg8::L => bank.l,
    }
}

/// The bank with one 8-bit cell replaced.
pub open spec fn with8(bank: BankView, reg: Reg8, value: u8) -> BankView {
    match reg {
        Reg8::A => BankView { a: value, ..bank },
        Reg8::B => BankView { b: value, ..bank },
        Reg8::C => BankView { c: value, ..bank },
        Reg8::D => BankView { d: value, ..bank },
        Reg8::E => BankView { e: value, ..bank },
        Reg8::H => BankView { h: value, ..bank },
        Reg8::L => BankView { l: value, ..bank },
    }
}

/// The bank with the flag register replaced.
pub open spec fn with_flags(bank: BankView, bits: u8) -> BankView {
    BankView { flags: bits, ..bank }
}

/// The combined 16-bit value of a register pair.
pub open spec fn get_pair(bank: BankView, pair: RegPair) -> u16 {
    spec_combine(get8(bank, pair_low(pair)), get8(bank, pair_high(pair)))
}

/// The bank with a 16-bit value split back into a pair's two cells.
pub open spec fn with_pair(bank: BankView, pair: RegPair, value: u16) -> BankView {
    with8(with8(bank, pair_low(pair), spec_low(value)), pair_high(pair), spec_high(value))
}

impl RegPair {
    /// The cell that holds the low byte of this pair.
    pub fn low_cell(&self) -> (r: Reg8)
        ensures
            r == pair_low(*self),
    {
        match self {
            RegPair::BC => Reg8::B,
            RegPair::DE => Reg8::D,
            RegPair::HL => Reg8::H,
        }
    }

    /// The cell that holds the high byte of this pair.
    pub fn high_cell(&self) -> (r: Reg8)
        ensures
            r == pair_high(*self),
    {
        match self {
            RegPair::BC => Reg8::C,
            RegPair::DE => Reg8::E,
            RegPair::HL => Reg8::L,
        }
    }
}

impl SM83RegisterBank {
    /// Read one 8-bit cell by name.
    pub fn reg8(&self, reg: Reg8) -> (r: u8)
        ensures
            r == get8(self@, reg),
    {
        match reg {
            Reg8::A => self.a,
            Reg8::B => self.b,
            Reg8::C => self.c,
            Reg8::D => self.d,
            Reg8::E => self.e,
            Reg8::H => self.h,
            Reg8::L => self.l,
        }
    }

    /// Write one 8-bit cell by name.
    pub fn set_reg8(&mut self, reg: Reg8, value: u8)
        ensures
            final(self)@ == with8(old(self)@, reg, value),
    {
        match reg {
            Reg8::A => self.a = value,
            Reg8::B => self.b = value,
            Reg8::C => self.c = value,
            Reg8::D => self.d = value,
            Reg8::E => self.e = value,
            Reg8::H => self.h = value,
            Reg8::L => self.l = value,
        }
    }

    /// The combined value of a register pair: the first cell is the low
    /// byte, the second the high byte.
    pub fn reg_pair(&self, pair: RegPair) -> (r: u16)
        ensures
            r == get_pair(self@, pair),
    {
        self.combined(self.reg8(pair.low_cell()), self.reg8(pair.high_cell()))
    }

    /// Split a 16-bit value back into a pair's two cells.
    pub fn set_reg_pair(&mut self, pair: RegPair, value: u16)
        ensures
            final(self)@ == with_pair(old(self)@, pair, value),
    {
        let parts = self.split(value);
        self.set_reg8(pair.low_cell(), parts[0]);
        self.set_reg8(pair.high_cell(), parts[1]);
    }
}

/// Register-pair round trip: splitting a combined pair gives back the two
/// bytes it was combined from.
pub proof fn lemma_split_combine(low: u8, high: u8)
    ensures
        spec_low(spec_combine(low, high)) == low,
        spec_high(spec_combine(low, high)) == high,
{
    assert(((low + high * 256) as u16) % 256 == low) by (bit_vector);
    assert(((low + high * 256) as u16) / 256 == high) by (bit_vector);
}

} // verus!
