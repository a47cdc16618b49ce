//! Reconstruction of the public inputs a proof is checked against.
//!
//! Prover and verifier must agree on the start states and on the step
//! count handed to the engine; both sides obtain them from the two
//! functions here, from `(init_value, step_num)` alone.

use crate::field::{scalar_from_u64, scalar_of_u64};
use vstd::prelude::*;

verus! {

/// The start state of the main track: `(1, init_value)`, both injected
/// into the field. The chain's first step index is one.
pub fn initial_chain_state(init_value: u64) -> (z: (
    halo2curves::bn256::Fr,
    halo2curves::bn256::Fr,
))
    ensures
        z.0 == scalar_of_u64(1),
        z.1 == scalar_of_u64(init_value),
{
    (scalar_from_u64(1), scalar_from_u64(init_value))
}

/// The step count handed to the engine: the chain steps plus the one
/// closing step. `None` exactly when that count does not fit in `usize`.
pub fn claimed_step_count(step_num: usize) -> (r: Option<usize>)
    ensures
        step_num < usize::MAX ==> r == Some((step_num + 1) as usize),
        step_num == usize::MAX ==> r is None,
{
    if step_num < usize::MAX {
        Some(step_num + 1)
    } else {
        None
    }
}

} // verus!
