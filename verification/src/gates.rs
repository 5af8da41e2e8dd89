//! Two-input boolean gates, the leaves every other component is built from.

use vstd::prelude::*;

verus! {

/// The boolean functions a gate can realise.
#[derive(Debug, Clone, Copy, PartialEq, Eq, Structural)]
pub enum GateType {
    AND,
    OR,
    XOR,
}

impl GateType {
    /// Truth table of this kind: the output owed for the inputs `a` and `b`.
    pub open spec fn output(self, a: bool, b: bool) -> bool {
        match self {
            GateType::AND => a && b,
            GateType::OR => a || b,
            GateType::XOR => a != b,
        }
    }
}

/// A gate of one fixed kind. It is stateless: the same inputs always give
/// the same output.
#[derive(Debug)]
pub struct LogicGate {
    gate_type: GateType,
}

impl LogicGate {
    /// The kind this gate was built as.
    pub closed spec fn kind(&self) -> GateType {
        self.gate_type
    }

    /// Builds a gate of the given kind.
    pub fn new(gate_type: GateType) -> (gate: Self)
        ensures
            gate.kind() == gate_type,
    {
        LogicGate { gate_type }
    }

    /// The output for two input bits.
    pub fn compute(&self, a: bool, b: bool) -> (out: bool)
        ensures
            out == self.kind().output(a, b),
    {
        match self.gate_type {
            GateType::AND => a && b,
            GateType::OR => a || b,
            GateType::XOR => a != b,
        }
    }

    /// The kind of this gate.
    pub fn gate_type(&self) -> (kind: &GateType)
        ensures
            *kind == self.kind(),
    {
        &self.gate_type
    }
}

} // verus!
