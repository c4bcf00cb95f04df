//! The standard two-input logic gates, as pure boolean functions and as
//! named gate values.
//!
//! A gate's behaviour is carried by [`GateKind`], a sum type dispatched by
//! safe pattern matching, so that every gate a collection hands out has
//! known semantics.

use crate::text::str_eq;
use vstd::prelude::*;

verus! {

pub fn and_gate(a: bool, b: bool) -> (r: bool)
    ensures
        r == (a && b),
{
    a && b
}

pub fn or_gate(a: bool, b: bool) -> (r: bool)
    ensures
        r == (a || b),
{
    a || b
}

pub fn xor_gate(a: bool, b: bool) -> (r: bool)
    ensures
        r == (a != b),
{
    a ^ b
}

pub fn nand_gate(a: bool, b: bool) -> (r: bool)
    ensures
        r == !(a && b),
{
    !(a && b)
}

pub fn nor_gate(a: bool, b: bool) -> (r: bool)
    ensures
        r == !(a || b),
{
    !(a || b)
}

/// Which boolean function a gate computes.
#[derive(Clone, Copy, Debug, PartialEq, Eq, Structural)]
pub enum GateKind {
    And,
    Or,
    Xor,
    Nand,
    Nor,
}

/// The boolean function a [`GateKind`] denotes.
pub open spec fn spec_gate_eval(kind: GateKind, a: bool, b: bool) -> bool {
    match kind {
        GateKind::And => a && b,
        GateKind::Or => a || b,
        GateKind::Xor => a != b,
        GateKind::Nand => !(a && b),
        GateKind::Nor => !(a || b),
    }
}

/// A named logic gate: its display name, the function it computes, and a
/// one-character symbol.
#[derive(Debug, Clone)]
pub struct LogicGate {
    pub name: String,
    pub function: GateKind,
    pub symbol: char,
}

impl LogicGate {
    pub fn new(name: &str, function: GateKind, symbol: char) -> (g: LogicGate)
        ensures
            g.name@ == name@,
            g.function == function,
            g.symbol == symbol,
    {
        LogicGate { name: name.to_owned(), function, symbol }
    }

    /// Compute this gate's boolean function.
    pub fn evaluate(&self, a: bool, b: bool) -> (r: bool)
        ensures
            r == spec_gate_eval(self.function, a, b),
    {
        match self.function {
            GateKind::And => and_gate(a, b),
            GateKind::Or => or_gate(a, b),
            GateKind::Xor => xor_gate(a, b),
            GateKind::Nand => nand_gate(a, b),
            GateKind::Nor => nor_gate(a, b),
        }
    }
}

/// The collection of the five standard gates, retrievable by name.
pub struct GateCollection {
    pub gates: Vec<LogicGate>,
}

impl GateCollection {
    pub fn new() -> (c: GateCollection)
        ensures
            c.gates@.len() == 5,
            c.gates@[0].name@ == "AND"@ && c.gates@[0].function == GateKind::And,
            c.gates@[1].name@ == "OR"@ && c.gates@[1].function == GateKind::Or,
            c.gates@[2].name@ == "XOR"@ && c.gates@[2].function == GateKind::Xor,
            c.gates@[3].name@ == "NAND"@ && c.gates@[3].function == GateKind::Nand,
            c.gates@[4].name@ == "NOR"@ && c.gates@[4].function == GateKind::Nor,
    {
        let mut gates: Vec<LogicGate> = Vec::new();
        gates.push(LogicGate::new("AND", GateKind::And, '∧'));
        gates.push(LogicGate::new("OR", GateKind::Or, '∨'));
        gates.push(LogicGate::new("XOR", GateKind::Xor, '⊕'));
        gates.push(LogicGate::new("NAND", GateKind::Nand, '⊼'));
        gates.push(LogicGate::new("NOR", GateKind::Nor, '⊽'));
        GateCollection { gates }
    }

    /// Look a gate up by its display name: the first gate with that name,
    /// or nothing when no gate carries it.
    pub fn get_gate(&self, name: &str) -> (r: Option<&LogicGate>)
        ensures
            match r {
                Some(g) => g.name@ == name@ && exists|i: int|
                    0 <= i < self.gates@.len() && g == &self.gates@[i] && (forall|j: int|
                        0 <= j < i ==> #[trigger] self.gates@[j].name@ != name@),
                None => forall|i: int|
                    0 <= i < self.gates@.len() ==> self.gates@[i].name@ != name@,
            },
    {
        let n = self.gates.len();
        let mut i: usize = 0;
        while i < n
            invariant
                i <= n,
                n == self.gates@.len(),
                forall|j: int| 0 <= j < i ==> self.gates@[j].name@ != name@,
            decreases n - i,
        {
            if str_eq(self.gates[i].name.as_str(), name) {
                return Some(&self.gates[i]);
            }
            i = i + 1;
        }
        None
    }
}

} // verus!
