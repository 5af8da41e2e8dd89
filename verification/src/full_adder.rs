//! The full adder: two half adders chained, their carries joined by an OR
//! gate.

use vstd::prelude::*;
use crate::gates::{GateType, LogicGate};
use crate::half_adder::{half_add, HalfAdder};

verus! {

/// Sum and carry bits of a full addition.
#[derive(Debug, PartialEq, Eq, Structural)]
pub struct FullAdderResult {
    pub sum: bool,
    pub carry: bool,
}

/// The numeric weight of a bit: 1 when set, 0 when clear.
pub open spec fn bit_value(bit: bool) -> int {
    if bit {
        1
    } else {
        0
    }
}

/// Whether at least two of the three bits are set.
pub open spec fn majority(a: bool, b: bool, c: bool) -> bool {
    (a && b) || (a && c) || (b && c)
}

/// The circuit's output: the first half adder takes `a` and `b`, the second
/// takes the first sum and `carry_in`, and the carry out is set when either
/// half adder carried.
pub open spec fn full_add(a: bool, b: bool, carry_in: bool) -> FullAdderResult {
    let first = half_add(a, b);
    let second = half_add(first.sum, carry_in);
    FullAdderResult {
        sum: second.sum,
        carry: GateType::OR.output(first.carry, second.carry),
    }
}

/// The two-half-adder circuit computes binary addition of three bits: the
/// sum bit is the parity of the inputs, the carry bit their majority, and
/// read as a two-bit number the output equals how many inputs are set.
pub proof fn lemma_full_add_is_binary_addition(a: bool, b: bool, carry_in: bool)
    ensures
        full_add(a, b, carry_in).sum == ((a != b) != carry_in),
        full_add(a, b, carry_in).carry == majority(a, b, carry_in),
        bit_value(full_add(a, b, carry_in).sum) + 2 * bit_value(full_add(a, b, carry_in).carry)
            == bit_value(a) + bit_value(b) + bit_value(carry_in),
{
}

/// Adds three bits.
#[derive(Debug)]
pub struct FullAdder {
    half_adder1: HalfAdder,
    half_adder2: HalfAdder,
    or_gate: LogicGate,
}

impl FullAdder {
    /// The half adder that takes the two operand bits.
    pub closed spec fn first_half(&self) -> HalfAdder {
        self.half_adder1
    }

    /// The half adder that takes the first sum and the carry in.
    pub closed spec fn second_half(&self) -> HalfAdder {
        self.half_adder2
    }

    /// Which kind of gate joins the carries of the two half adders.
    pub closed spec fn joining_gate(&self) -> GateType {
        self.or_gate.kind()
    }

    /// The circuit of a full adder: two wired half adders, their carries
    /// joined by an OR gate. Every full adder is wired so.
    #[verifier::type_invariant]
    pub open spec fn wired(&self) -> bool {
        &&& self.first_half().wired()
        &&& self.second_half().wired()
        &&& self.joining_gate() == GateType::OR
    }

    /// Builds a full adder from two fresh half adders and a fresh OR gate.
    pub fn new() -> (adder: Self)
        ensures
            adder.first_half().wired(),
            adder.second_half().wired(),
            adder.joining_gate() == GateType::OR,
            adder.wired(),
    {
        let half_adder1 = HalfAdder::new();
        let half_adder2 = HalfAdder::new();
        let or_gate = LogicGate::new(GateType::OR);
        FullAdder { half_adder1, half_adder2, or_gate }
    }

    /// Adds the bits `a`, `b` and `carry_in`.
    pub fn compute(&self, a: bool, b: bool, carry_in: bool) -> (out: FullAdderResult)
        ensures
            self.wired(),
            out == full_add(a, b, carry_in),
            out.sum == ((a != b) != carry_in),
            out.carry == majority(a, b, carry_in),
    {
        proof {
            use_type_invariant(self);
            lemma_full_add_is_binary_addition(a, b, carry_in);
        }
        let result1 = self.half_adder1.compute(a, b);
        let result2 = self.half_adder2.compute(result1.sum, carry_in);
        let carry = self.or_gate.compute(result1.carry, result2.carry);
        FullAdderResult { sum: result2.sum, carry }
    }
}

impl Default for FullAdder {
    fn default() -> (adder: Self)
        ensures
            adder.wired(),
    {
        Self::new()
    }
}

} // verus!
