//! The step circuit's witness data and the relation it enforces.
//!
//! The proof engine folds one instance of the step circuit per chain step.
//! The circuit's private witness is modelled here as a record of plain
//! values; the constraint relation the circuit enforces between that
//! witness, the incoming public state and the outgoing public state is
//! stated as the specification functions below. A public state `(index,
//! value)` is modelled with its index as a mathematical integer; the engine
//! carries it as the field element `scalar_of_u64(index)`.

use crate::field::{poseidon2, scalar_of_u64};
use vstd::prelude::*;

verus! {

/// The private witness for one invocation of the step circuit: whether this
/// is the closing step, the step index, and the incoming chain value.
#[derive(Clone, Copy, Debug)]
pub struct PoseidonCircuit {
    /// True only on the closing step, which pins the final chain value.
    pub is_final: bool,
    /// The step index; unconstrained (a dummy) on the closing step.
    pub i: u64,
    /// The chain value entering this step.
    pub v: halo2curves::bn256::Fr,
}

impl PoseidonCircuit {
    pub fn new(is_final: bool, i: u64, v: halo2curves::bn256::Fr) -> (c: Self)
        ensures
            c.is_final == is_final,
            c.i == i,
            c.v == v,
    {
        Self { is_final, i, v }
    }
}

/// The constraint relation of one step: the witness `w` is accepted against
/// the incoming public state `(z_index, z_value)` iff
/// - `w.is_final` is a boolean (true by construction of the model),
/// - on a non-final step the witness index equals the public index
///   (`(i - z[0]) * (1 - is_final) = 0`), so the closing step's index is
///   unconstrained,
/// - the witness value equals the public value (`v = z[1]`), on every step.
pub open spec fn step_accepts(w: PoseidonCircuit, z_index: int, z_value: halo2curves::bn256::Fr) -> bool {
    &&& !w.is_final ==> w.i == z_index
    &&& w.v == z_value
}

/// The index the step outputs: the witness index incremented. After the
/// closing step this value is produced but consumed by nothing.
pub open spec fn step_output_index(w: PoseidonCircuit) -> int {
    w.i + 1
}

/// The value the step outputs: the hash of the incoming *public* state, so
/// continuity across folds is enforced by the engine re-feeding the output
/// as the next input, not by the witness alone.
pub open spec fn step_output_value(z_index: int, z_value: halo2curves::bn256::Fr) -> halo2curves::bn256::Fr
    recommends
        0 <= z_index <= u64::MAX,
{
    poseidon2(scalar_of_u64(z_index as u64), z_value)
}

} // verus!
