//! The register file: three four-bit registers and two status flags.

use vstd::prelude::*;
use crate::nibble::{is_nibble, low_nibble, mask};

verus! {

/// A register holding one four-bit word.
#[derive(Debug, Clone, Copy)]
pub struct Register4Bit {
    value: u8,
}

impl View for Register4Bit {
    type V = u8;

    /// The word the register holds.
    closed spec fn view(&self) -> u8 {
        self.value
    }
}

impl Register4Bit {
    /// The stored word never leaves the range `0..=15`.
    #[verifier::type_invariant]
    spec fn in_range(&self) -> bool {
        is_nibble(self.value)
    }

    /// A register holding zero.
    pub fn new() -> (register: Self)
        ensures
            register@ == 0,
    {
        Register4Bit { value: 0 }
    }

    /// A register holding the low four bits of `value`.
    pub fn with_value(value: u8) -> (register: Self)
        ensures
            register@ == low_nibble(value),
    {
        Register4Bit { value: mask(value) }
    }

    /// The word the register holds.
    pub fn read(&self) -> (value: u8)
        ensures
            value == self@,
            is_nibble(value),
    {
        proof {
            use_type_invariant(self);
        }
        self.value
    }

    /// Stores the low four bits of `value`.
    pub fn write(&mut self, value: u8)
        ensures
            final(self)@ == low_nibble(value),
    {
        self.value = mask(value);
    }

    /// Adds one, wrapping from 15 to 0.
    pub fn increment(&mut self)
        ensures
            final(self)@ == (old(self)@ + 1) % 16,
    {
        proof {
            use_type_invariant(&*self);
        }
        self.value = mask(self.value + 1);
    }

    /// Subtracts one, wrapping from 0 to 15.
    pub fn decrement(&mut self)
        ensures
            final(self)@ == (old(self)@ + 15) % 16,
            final(self)@ == (if old(self)@ == 0 { 15 } else { old(self)@ - 1 }),
    {
        proof {
            use_type_invariant(&*self);
        }
        if self.value == 0 {
            self.value = 0xF;
        } else {
            self.value -= 1;
        }
    }

    /// Stores zero.
    pub fn clear(&mut self)
        ensures
            final(self)@ == 0,
    {
        self.value = 0;
    }

    /// Whether the register holds zero.
    pub fn is_zero(&self) -> (zero: bool)
        ensures
            zero == (self@ == 0),
    {
        self.value == 0
    }
}

impl Default for Register4Bit {
    fn default() -> (register: Self)
        ensures
            register@ == 0,
    {
        Self::new()
    }
}

/// The contents of a register file as plain values.
pub struct RegisterState {
    pub accumulator: u8,
    pub program_counter: u8,
    pub instruction_register: u8,
    pub zero_flag: bool,
    pub carry_flag: bool,
}

impl RegisterState {
    /// Every register holds a four-bit word.
    pub open spec fn wf(self) -> bool {
        &&& is_nibble(self.accumulator)
        &&& is_nibble(self.program_counter)
        &&& is_nibble(self.instruction_register)
    }

    /// The state after a reset: all registers zero, both flags clear.
    pub open spec fn initial() -> RegisterState {
        RegisterState {
            accumulator: 0,
            program_counter: 0,
            instruction_register: 0,
            zero_flag: false,
            carry_flag: false,
        }
    }

    /// The state after the flags are recomputed from a value and a carry:
    /// the zero flag looks at the low four bits of `value` only.
    pub open spec fn with_flags(self, value: u8, carry: bool) -> RegisterState {
        RegisterState { zero_flag: low_nibble(value) == 0, carry_flag: carry, ..self }
    }
}

/// The processor's registers and status flags.
#[derive(Debug)]
pub struct CPURegisters {
    /// Working register of every arithmetic and load operation.
    pub accumulator: Register4Bit,
    /// Address of the next word to fetch.
    pub program_counter: Register4Bit,
    /// The word fetched last.
    pub instruction_register: Register4Bit,
    /// Set when the last flagged operation produced zero.
    pub zero_flag: bool,
    /// Set when the last flagged operation carried out of bit 3.
    pub carry_flag: bool,
}

impl View for CPURegisters {
    type V = RegisterState;

    open spec fn view(&self) -> RegisterState {
        RegisterState {
            accumulator: self.accumulator@,
            program_counter: self.program_counter@,
            instruction_register: self.instruction_register@,
            zero_flag: self.zero_flag,
            carry_flag: self.carry_flag,
        }
    }
}

impl CPURegisters {
    /// A register file with all registers zero and both flags clear.
    pub fn new() -> (registers: Self)
        ensures
            registers@ == RegisterState::initial(),
    {
        CPURegisters {
            accumulator: Register4Bit::new(),
            program_counter: Register4Bit::new(),
            instruction_register: Register4Bit::new(),
            zero_flag: false,
            carry_flag: false,
        }
    }

    /// Zeroes all registers and clears both flags.
    pub fn reset(&mut self)
        ensures
            final(self)@ == RegisterState::initial(),
    {
        self.accumulator.clear();
        self.program_counter.clear();
        self.instruction_register.clear();
        self.zero_flag = false;
        self.carry_flag = false;
    }

    /// Recomputes the flags: zero from the low four bits of `value`, carry
    /// from `carry`. The registers keep their contents.
    pub fn update_flags(&mut self, value: u8, carry: bool)
        ensures
            final(self)@ == old(self)@.with_flags(value, carry),
    {
        self.zero_flag = mask(value) == 0;
        self.carry_flag = carry;
    }
}

impl Default for CPURegisters {
    fn default() -> (registers: Self)
        ensures
            registers@ == RegisterState::initial(),
    {
        Self::new()
    }
}

} // verus!
