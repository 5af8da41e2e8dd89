//! The arithmetic unit: four full adders chained into a ripple-carry adder
//! that adds, and subtracts by adding the two's complement.

use vstd::prelude::*;
use crate::full_adder::{bit_value, full_add, lemma_full_add_is_binary_addition, FullAdder};
use crate::nibble::{is_nibble, low_nibble, mask};

verus! {

/// The operations the unit performs.
#[derive(Debug, Clone, Copy, PartialEq, Eq, Structural)]
pub enum ALUOperation {
    Add,
    Subtract,
}

/// Outcome of one operation: the four-bit result, the carry out of the most
/// significant adder, and whether the result is zero.
#[derive(Debug, PartialEq, Eq, Structural)]
pub struct ALUResult {
    pub result: u8,
    pub carry: bool,
    pub zero: bool,
}

/// Number of adder stages, which is the width of a word in bits.
pub const WIDTH: usize = 4;

/// The four low bits of `value`, least significant first.
#[verifier::opaque]
pub open spec fn bits_of(value: u8) -> Seq<bool> {
    seq![value % 2 == 1, (value / 2) % 2 == 1, (value / 4) % 2 == 1, (value / 8) % 2 == 1]
}

/// The number that four bits spell, least significant bit first.
pub open spec fn bits_value(bits: Seq<bool>) -> int {
    bit_value(bits[0]) + 2 * bit_value(bits[1]) + 4 * bit_value(bits[2]) + 8 * bit_value(bits[3])
}

/// The carry that enters stage `stage` of a chain of full adders: the carry
/// in for stage zero, and for every later stage the carry out of the stage
/// before it. The carry that enters stage four is the carry out of the
/// chain.
pub open spec fn chain_carry(a: Seq<bool>, b: Seq<bool>, carry_in: bool, stage: nat) -> bool
    decreases stage,
{
    if stage == 0 {
        carry_in
    } else {
        let before = (stage - 1) as nat;
        full_add(a[before as int], b[before as int], chain_carry(a, b, carry_in, before)).carry
    }
}

/// The sum bits of a chain of four full adders, least significant first:
/// stage `i` adds bit `i` of each operand and the carry that enters it.
pub open spec fn chain_sums(a: Seq<bool>, b: Seq<bool>, carry_in: bool) -> Seq<bool> {
    Seq::new(
        WIDTH as nat,
        |stage: int| full_add(a[stage], b[stage], chain_carry(a, b, carry_in, stage as nat)).sum,
    )
}

/// What the ripple-carry circuit gives for the low four bits of two
/// operands: the number its sum bits spell, the carry out of its last stage,
/// and whether that number is zero.
#[verifier::opaque]
pub open spec fn ripple_carry(a: u8, b: u8, carry_in: bool) -> ALUResult {
    let sums = chain_sums(bits_of(a), bits_of(b), carry_in);
    ALUResult {
        result: bits_value(sums) as u8,
        carry: chain_carry(bits_of(a), bits_of(b), carry_in, WIDTH as nat),
        zero: bits_value(sums) == 0,
    }
}

/// The five-bit total the adder chain produces for two operands and a carry
/// into the lowest stage.
pub open spec fn ripple_total(a: u8, b: u8, carry_in: bool) -> int {
    a + b + bit_value(carry_in)
}

/// The outcome that belongs to a five-bit total: its low four bits, its
/// fifth bit as the carry, and the zero flag of the low four bits alone.
pub open spec fn result_of_total(total: int) -> ALUResult {
    ALUResult { result: (total % 16) as u8, carry: total >= 16, zero: total % 16 == 0 }
}

/// What the unit computes. Both operands are first truncated to four bits.
/// Addition feeds them to the adder chain with no carry in. Subtraction
/// feeds the minuend and the bitwise complement of the subtrahend with a
/// carry in of one.
pub open spec fn alu_compute(a: u8, b: u8, operation: ALUOperation) -> ALUResult {
    let x = low_nibble(a);
    let y = low_nibble(b);
    match operation {
        ALUOperation::Add => result_of_total(ripple_total(x, y, false)),
        ALUOperation::Subtract => result_of_total(ripple_total(x, (15 - y) as u8, true)),
    }
}

/// The four bits of a value spell its remainder modulo 16.
pub proof fn lemma_bits_spell_low_nibble(value: u8)
    ensures
        bits_of(value).len() == WIDTH,
        bits_value(bits_of(value)) == low_nibble(value),
{
    reveal(bits_of);
}

/// The ripple-carry circuit adds: its sum bits and its carry out together
/// spell the five-bit total of the two four-bit operands and the carry in.
pub proof fn lemma_ripple_carry_adds(a: u8, b: u8, carry_in: bool)
    ensures
        ripple_carry(a, b, carry_in) == result_of_total(
            ripple_total(low_nibble(a), low_nibble(b), carry_in),
        ),
{
    reveal(ripple_carry);
    let x = bits_of(a);
    let y = bits_of(b);
    let c0 = chain_carry(x, y, carry_in, 0);
    let c1 = chain_carry(x, y, carry_in, 1);
    let c2 = chain_carry(x, y, carry_in, 2);
    let c3 = chain_carry(x, y, carry_in, 3);
    let c4 = chain_carry(x, y, carry_in, 4);
    reveal_with_fuel(chain_carry, 5);
    lemma_full_add_is_binary_addition(x[0], y[0], c0);
    lemma_full_add_is_binary_addition(x[1], y[1], c1);
    lemma_full_add_is_binary_addition(x[2], y[2], c2);
    lemma_full_add_is_binary_addition(x[3], y[3], c3);
    lemma_bits_spell_low_nibble(a);
    lemma_bits_spell_low_nibble(b);
    let sums = chain_sums(x, y, carry_in);
    assert(bits_value(sums) + 16 * bit_value(c4) == low_nibble(a) + low_nibble(b) + bit_value(
        carry_in,
    ));
}

/// Addition wraps modulo 16 and carries exactly when the true sum does not
/// fit in four bits, so that `16 * carry + result` is the true sum.
pub proof fn lemma_add_is_modular(a: u8, b: u8)
    ensures
        ({
            let out = alu_compute(a, b, ALUOperation::Add);
            let sum = low_nibble(a) + low_nibble(b);
            &&& out.result == sum % 16
            &&& out.carry == (sum > 15)
            &&& out.zero == (out.result == 0)
            &&& 16 * bit_value(out.carry) + out.result == sum
        }),
{
}

/// Subtraction wraps modulo 16, and its carry is set exactly when no borrow
/// was needed, that is when the minuend is at least the subtrahend.
pub proof fn lemma_subtract_is_modular(a: u8, b: u8)
    ensures
        ({
            let out = alu_compute(a, b, ALUOperation::Subtract);
            let difference = low_nibble(a) - low_nibble(b);
            &&& out.result == difference % 16
            &&& out.result == if difference >= 0 { difference } else { 16 + difference }
            &&& out.carry == (difference >= 0)
            &&& out.zero == (out.result == 0)
            &&& out.zero == (difference == 0)
        }),
{
}

/// Only the low four bits of each operand matter, and the result fits in
/// four bits.
pub proof fn lemma_operands_are_masked(a: u8, b: u8, operation: ALUOperation)
    ensures
        alu_compute(a, b, operation) == alu_compute(low_nibble(a), low_nibble(b), operation),
        is_nibble(alu_compute(a, b, operation).result),
{
}

/// A four-bit arithmetic unit.
#[derive(Debug)]
pub struct ALU {
    adder0: FullAdder,
    adder1: FullAdder,
    adder2: FullAdder,
    adder3: FullAdder,
}

impl ALU {
    /// The full adder at stage `stage` of the chain; stage zero adds the
    /// least significant bits.
    pub closed spec fn stage(&self, stage: int) -> FullAdder {
        if stage == 0 {
            self.adder0
        } else if stage == 1 {
            self.adder1
        } else if stage == 2 {
            self.adder2
        } else {
            self.adder3
        }
    }

    /// The circuit of the unit: a wired full adder at each of the four
    /// stages. Every unit is wired so.
    #[verifier::type_invariant]
    pub open spec fn wired(&self) -> bool {
        forall|stage: int| 0 <= stage < WIDTH ==> (#[trigger] self.stage(stage)).wired()
    }

    /// Builds a unit from four fresh full adders.
    pub fn new() -> (alu: Self)
        ensures
            alu.wired(),
    {
        let adder0 = FullAdder::new();
        let adder1 = FullAdder::new();
        let adder2 = FullAdder::new();
        let adder3 = FullAdder::new();
        ALU { adder0, adder1, adder2, adder3 }
    }

    /// Performs `operation` on the low four bits of `a` and `b`.
    pub fn compute(&self, a: u8, b: u8, operation: ALUOperation) -> (out: ALUResult)
        ensures
            self.wired(),
            out == alu_compute(a, b, operation),
            is_nibble(out.result),
            out.zero == (out.result == 0),
    {
        proof {
            use_type_invariant(self);
        }
        let a = mask(a);
        let b = mask(b);
        match operation {
            ALUOperation::Add => self.add(a, b),
            ALUOperation::Subtract => self.subtract(a, b),
        }
    }

    /// Runs the adder chain on two four-bit operands, least significant
    /// stage first, each stage taking the carry of the one before it.
    fn ripple(&self, a: u8, b: u8, carry_in: bool) -> (out: ALUResult)
        requires
            is_nibble(a),
            is_nibble(b),
        ensures
            out == ripple_carry(a, b, carry_in),
            out == result_of_total(ripple_total(a, b, carry_in)),
    {
        let a_bits = self.to_bits(a);
        let b_bits = self.to_bits(b);

        let result0 = self.adder0.compute(a_bits[0], b_bits[0], carry_in);
        let result1 = self.adder1.compute(a_bits[1], b_bits[1], result0.carry);
        let result2 = self.adder2.compute(a_bits[2], b_bits[2], result1.carry);
        let result3 = self.adder3.compute(a_bits[3], b_bits[3], result2.carry);

        let result_bits = [result0.sum, result1.sum, result2.sum, result3.sum];
        let result_value = self.bits_to_u8(result_bits);

        proof {
            let x = bits_of(a);
            let y = bits_of(b);
            assert(chain_carry(x, y, carry_in, 0) == carry_in);
            assert(chain_carry(x, y, carry_in, 1) == result0.carry);
            assert(chain_carry(x, y, carry_in, 2) == result1.carry);
            assert(chain_carry(x, y, carry_in, 3) == result2.carry);
            assert(chain_carry(x, y, carry_in, 4) == result3.carry);
            assert(result_bits@ =~= chain_sums(x, y, carry_in));
            reveal(ripple_carry);
            lemma_ripple_carry_adds(a, b, carry_in);
        }
        ALUResult { result: result_value, carry: result3.carry, zero: result_value == 0 }
    }

    /// Adds two four-bit operands.
    fn add(&self, a: u8, b: u8) -> (out: ALUResult)
        requires
            is_nibble(a),
            is_nibble(b),
        ensures
            out == alu_compute(a, b, ALUOperation::Add),
    {
        self.ripple(a, b, false)
    }

    /// Subtracts `b` from `a` by adding the complement of `b` and one.
    fn subtract(&self, a: u8, b: u8) -> (out: ALUResult)
        requires
            is_nibble(a),
            is_nibble(b),
        ensures
            out == alu_compute(a, b, ALUOperation::Subtract),
    {
        let b_inverted = mask(!b);
        proof {
            assert(b <= 15 ==> (!b) % 16 == 15 - b) by (bit_vector);
        }
        self.ripple(a, b_inverted, true)
    }

    /// Splits a value into its four low bits, least significant first.
    fn to_bits(&self, value: u8) -> (bits: [bool; 4])
        ensures
            bits@ == bits_of(value),
    {
        let bits = [(value & 0x01) != 0, (value & 0x02) != 0, (value & 0x04) != 0, (value & 0x08) != 0];
        proof {
            assert(((value & 0x01) != 0) == (value % 2 == 1)) by (bit_vector);
            assert(((value & 0x02) != 0) == ((value / 2) % 2 == 1)) by (bit_vector);
            assert(((value & 0x04) != 0) == ((value / 4) % 2 == 1)) by (bit_vector);
            assert(((value & 0x08) != 0) == ((value / 8) % 2 == 1)) by (bit_vector);
            reveal(bits_of);
            assert(bits@ =~= bits_of(value));
        }
        bits
    }

    /// Assembles four bits, least significant first, into a value.
    fn bits_to_u8(&self, bits: [bool; 4]) -> (value: u8)
        ensures
            value == bits_value(bits@),
    {
        let mut result: u8 = 0;
        if bits[0] {
            result = result + 1;
        }
        if bits[1] {
            result = result + 2;
        }
        if bits[2] {
            result = result + 4;
        }
        if bits[3] {
            result = result + 8;
        }
        result
    }
}

impl Default for ALU {
    fn default() -> (alu: Self)
        ensures
            alu.wired(),
    {
        Self::new()
    }
}

} // verus!
