//! The half adder: one XOR gate for the sum, one AND gate for the carry.

use vstd::prelude::*;
use crate::gates::{GateType, LogicGate};

verus! {

/// Sum and carry bits of a half addition.
#[derive(Debug, PartialEq, Eq, Structural)]
pub struct HalfAdderResult {
    pub sum: bool,
    pub carry: bool,
}

/// What adding the two bits `a` and `b` gives: the sum bit is their
/// exclusive or, the carry bit their conjunction.
pub open spec fn half_add(a: bool, b: bool) -> HalfAdderResult {
    HalfAdderResult {
        sum: GateType::XOR.output(a, b),
        carry: GateType::AND.output(a, b),
    }
}

/// Adds two bits.
#[derive(Debug)]
pub struct HalfAdder {
    xor_gate: LogicGate,
    and_gate: LogicGate,
}

impl HalfAdder {
    /// Which kind of gate gives the sum bit.
    pub closed spec fn sum_gate(&self) -> GateType {
        self.xor_gate.kind()
    }

    /// Which kind of gate gives the carry bit.
    pub closed spec fn carry_gate(&self) -> GateType {
        self.and_gate.kind()
    }

    /// The circuit of a half adder: an XOR gate gives the sum bit and an AND
    /// gate the carry bit. Every half adder is wired so.
    #[verifier::type_invariant]
    pub open spec fn wired(&self) -> bool {
        &&& self.sum_gate() == GateType::XOR
        &&& self.carry_gate() == GateType::AND
    }

    /// Builds a half adder from a fresh XOR gate and a fresh AND gate.
    pub fn new() -> (adder: Self)
        ensures
            adder.sum_gate() == GateType::XOR,
            adder.carry_gate() == GateType::AND,
            adder.wired(),
    {
        let xor_gate = LogicGate::new(GateType::XOR);
        let and_gate = LogicGate::new(GateType::AND);
        HalfAdder { xor_gate, and_gate }
    }

    /// Adds the bits `a` and `b`.
    pub fn compute(&self, a: bool, b: bool) -> (out: HalfAdderResult)
        ensures
            self.wired(),
            out.sum == self.sum_gate().output(a, b),
            out.carry == self.carry_gate().output(a, b),
            out == half_add(a, b),
            out.sum == (a != b),
            out.carry == (a && b),
    {
        proof {
            use_type_invariant(self);
        }
        let sum = self.xor_gate.compute(a, b);
        let carry = self.and_gate.compute(a, b);
        HalfAdderResult { sum, carry }
    }
}

impl Default for HalfAdder {
    fn default() -> (adder: Self)
        ensures
            adder.wired(),
    {
        Self::new()
    }
}

} // verus!
