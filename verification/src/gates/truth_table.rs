//! Truth tables: every input combination for a set of gates, with one
//! output column per gate.

use crate::gates::gate::GateKind;
use crate::gates::gate::LogicGate;
use crate::gates::gate::spec_gate_eval;
use vstd::prelude::*;

verus! {

/// Bit `bit` of input row `i` over `n` inputs: the most significant input
/// comes first.
pub open spec fn spec_input_bit(i: usize, n: usize, bit: int) -> bool
    recommends
        0 <= bit < n,
{
    (i >> ((n - 1 - bit) as usize)) & 1 == 1
}

/// Input row `i` of a table over `n` inputs.
pub open spec fn spec_input_row(i: usize, n: usize) -> Seq<bool> {
    Seq::new(n as nat, |bit: int| spec_input_bit(i, n, bit))
}

/// The first `upto` inputs of `row` chained left to right through one gate.
pub open spec fn spec_chain_eval(kind: GateKind, row: Seq<bool>, upto: int) -> bool
    decreases upto,
{
    if upto <= 1 {
        row[0]
    } else {
        spec_gate_eval(kind, spec_chain_eval(kind, row, upto - 1), row[upto - 1])
    }
}

/// One gate's entry for one row of the table.
pub open spec fn spec_gate_output(kind: GateKind, row: Seq<bool>, n: int) -> bool {
    if n == 1 {
        spec_gate_eval(kind, row[0], false)
    } else if n == 2 {
        spec_gate_eval(kind, row[0], row[1])
    } else {
        spec_chain_eval(kind, row, n)
    }
}

/// A complete truth table: all `2^n` input rows, one output column per
/// gate, and the gates' names.
#[derive(Debug, Clone)]
pub struct TruthTable {
    pub inputs: Vec<Vec<bool>>,
    pub outputs: Vec<Vec<bool>>,
    pub gate_names: Vec<String>,
}

impl TruthTable {
    /// Every row and every gate's output for it, in row order.
    pub fn new(gates: &[&LogicGate], num_inputs: usize) -> (t: TruthTable)
        requires
            1 <= num_inputs < 32,
        ensures
            t.inputs@.len() == (1usize << num_inputs),
            forall|i: int|
                0 <= i < t.inputs@.len() ==> t.inputs@[i]@ == spec_input_row(
                    i as usize,
                    num_inputs,
                ),
            t.outputs@.len() == (1usize << num_inputs),
            forall|i: int| 0 <= i < t.outputs@.len() ==> t.outputs@[i]@.len() == gates@.len(),
            forall|i: int, k: int|
                0 <= i < t.outputs@.len() && 0 <= k < gates@.len() ==> t.outputs@[i]@[k]
                    == spec_gate_output(
                    gates@[k].function,
                    spec_input_row(i as usize, num_inputs),
                    num_inputs as int,
                ),
            t.gate_names@.len() == gates@.len(),
            forall|k: int| 0 <= k < gates@.len() ==> t.gate_names@[k]@ == gates@[k].name@,
    {
        let total: usize = 1usize << num_inputs;
        let mut inputs: Vec<Vec<bool>> = Vec::new();
        let mut i: usize = 0;
        while i < total
            invariant
                i <= total,
                1 <= num_inputs < 32,
                inputs@.len() == i,
                forall|ii: int|
                    0 <= ii < i ==> inputs@[ii]@ == spec_input_row(ii as usize, num_inputs),
            decreases total - i,
        {
            let mut row: Vec<bool> = Vec::new();
            let mut bit: usize = 0;
            while bit < num_inputs
                invariant
                    bit <= num_inputs,
                    1 <= num_inputs < 32,
                    row@.len() == bit,
                    forall|b: int| 0 <= b < bit ==> row@[b] == spec_input_bit(i, num_inputs, b),
                decreases num_inputs - bit,
            {
                row.push((i >> (num_inputs - 1 - bit)) & 1 == 1);
                bit = bit + 1;
            }
            proof {
                assert(row@ =~= spec_input_row(i, num_inputs));
            }
            inputs.push(row);
            i = i + 1;
        }

        let mut outputs: Vec<Vec<bool>> = Vec::new();
        let mut i: usize = 0;
        while i < total
            invariant
                i <= total,
                1 <= num_inputs < 32,
                inputs@.len() == total,
                forall|ii: int|
                    0 <= ii < total ==> inputs@[ii]@ == spec_input_row(ii as usize, num_inputs),
                outputs@.len() == i,
                forall|ii: int| 0 <= ii < i ==> outputs@[ii]@.len() == gates@.len(),
                forall|ii: int, k: int|
                    0 <= ii < i && 0 <= k < gates@.len() ==> outputs@[ii]@[k]
                        == spec_gate_output(
                        gates@[k].function,
                        spec_input_row(ii as usize, num_inputs),
                        num_inputs as int,
                    ),
            decreases total - i,
        {
            let mut output_row: Vec<bool> = Vec::new();
            let num_gates = gates.len();
            let mut k: usize = 0;
            while k < num_gates
                invariant
                    k <= num_gates,
                    num_gates == gates@.len(),
                    1 <= num_inputs < 32,
                    i < total,
                    inputs@.len() == total,
                    forall|ii: int|
                        0 <= ii < total ==> inputs@[ii]@ == spec_input_row(
                            ii as usize,
                            num_inputs,
                        ),
                    output_row@.len() == k,
                    forall|kk: int|
                        0 <= kk < k ==> output_row@[kk] == spec_gate_output(
                            gates@[kk].function,
                            spec_input_row(i, num_inputs),
                            num_inputs as int,
                        ),
                decreases num_gates - k,
            {
                let gate = gates[k];
                let val: bool = if num_inputs == 1 {
                    gate.evaluate(inputs[i][0], false)
                } else if num_inputs == 2 {
                    gate.evaluate(inputs[i][0], inputs[i][1])
                } else {
                    let mut result = inputs[i][0];
                    let mut b: usize = 1;
                    while b < num_inputs
                        invariant
                            1 <= b <= num_inputs,
                            2 < num_inputs < 32,
                            i < total,
                            num_gates == gates@.len(),
                            k < num_gates,
                            gate == gates@[k as int],
                            inputs@.len() == total,
                            inputs@[i as int]@ == spec_input_row(i, num_inputs),
                            result == spec_chain_eval(
                                gates@[k as int].function,
                                spec_input_row(i, num_inputs),
                                b as int,
                            ),
                        decreases num_inputs - b,
                    {
                        proof {
                            let kind = gates@[k as int].function;
                            let row = spec_input_row(i, num_inputs);
                            assert(spec_chain_eval(kind, row, b + 1) == spec_gate_eval(
                                kind,
                                spec_chain_eval(kind, row, b as int),
                                row[b as int],
                            ));
                        }
                        result = gate.evaluate(result, inputs[i][b]);
                        b = b + 1;
                    }
                    result
                };
                output_row.push(val);
                k = k + 1;
            }
            outputs.push(output_row);
            i = i + 1;
        }

        let mut gate_names: Vec<String> = Vec::new();
        let num_gates = gates.len();
        let mut k: usize = 0;
        while k < num_gates
            invariant
                k <= num_gates,
                num_gates == gates@.len(),
                gate_names@.len() == k,
                forall|kk: int| 0 <= kk < k ==> gate_names@[kk]@ == gates@[kk].name@,
            decreases num_gates - k,
        {
            gate_names.push(gates[k].name.clone());
            k = k + 1;
        }

        TruthTable { inputs, outputs, gate_names }
    }

    /// The combined rows and the column names.
    pub fn to_matrix(&self) -> (r: (Vec<Vec<bool>>, Vec<String>))
        requires
            self.outputs@.len() >= self.inputs@.len(),
        ensures
            r.0@.len() == self.inputs@.len(),
            forall|i: int|
                0 <= i < r.0@.len() ==> r.0@[i]@ == self.inputs@[i]@ + self.outputs@[i]@,
            r.1@.len() == self.gate_names@.len(),
            forall|k: int| 0 <= k < r.1@.len() ==> r.1@[k]@ == self.gate_names@[k]@,
    {
        let mut matrix: Vec<Vec<bool>> = Vec::new();
        let n = self.inputs.len();
        let mut i: usize = 0;
        while i < n
            invariant
                i <= n,
                n == self.inputs@.len(),
                self.outputs@.len() >= n,
                matrix@.len() == i,
                forall|ii: int|
                    0 <= ii < i ==> matrix@[ii]@ == self.inputs@[ii]@ + self.outputs@[ii]@,
            decreases n - i,
        {
            let mut row: Vec<bool> = Vec::new();
            let len_in = self.inputs[i].len();
            let mut j: usize = 0;
            while j < len_in
                invariant
                    j <= len_in,
                    i < n,
                    n == self.inputs@.len(),
                    self.outputs@.len() >= n,
                    len_in == self.inputs@[i as int]@.len(),
                    row@ == self.inputs@[i as int]@.take(j as int),
                decreases len_in - j,
            {
                row.push(self.inputs[i][j]);
                proof {
                    assert(row@ =~= self.inputs@[i as int]@.take(j + 1));
                }
                j = j + 1;
            }
            let len_out = self.outputs[i].len();
            let mut j: usize = 0;
            while j < len_out
                invariant
                    j <= len_out,
                    i < n,
                    n == self.inputs@.len(),
                    self.outputs@.len() >= n,
                    len_out == self.outputs@[i as int]@.len(),
                    row@ == self.inputs@[i as int]@ + self.outputs@[i as int]@.take(j as int),
                decreases len_out - j,
            {
                row.push(self.outputs[i][j]);
                proof {
                    assert(row@ =~= self.inputs@[i as int]@ + self.outputs@[i as int]@.take(
                        j + 1,
                    ));
                }
                j = j + 1;
            }
            proof {
                assert(self.inputs@[i as int]@.take(len_in as int) =~= self.inputs@[i as int]@);
                assert(self.outputs@[i as int]@.take(len_out as int) =~= self.outputs@[
                    i as int
                ]@);
                assert(row@ =~= self.inputs@[i as int]@ + self.outputs@[i as int]@);
            }
            matrix.push(row);
            i = i + 1;
        }

        let mut names: Vec<String> = Vec::new();
        let m = self.gate_names.len();
        let mut k: usize = 0;
        while k < m
            invariant
                k <= m,
                m == self.gate_names@.len(),
                names@.len() == k,
                forall|kk: int| 0 <= kk < k ==> names@[kk]@ == self.gate_names@[kk]@,
            decreases m - k,
        {
            names.push(self.gate_names[k].clone());
            k = k + 1;
        }

        (matrix, names)
    }
}

} // verus!
