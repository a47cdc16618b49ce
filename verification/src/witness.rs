//! The pair hashed at each chain step.

use crate::field::{poseidon2, poseidon_hash, scalar_from_u64, scalar_of_u64};
use vstd::prelude::*;

verus! {

/// One chain step's hash preimage: the step index and the running value.
#[derive(Clone, Copy, Debug)]
pub struct PoseidonWitness {
    /// The step index, hashed as a field element.
    pub i: u64,
    /// The running chain value entering this step.
    pub v: halo2curves::bn256::Fr,
}

impl PoseidonWitness {
    pub fn new(i: u64, v: halo2curves::bn256::Fr) -> (w: Self)
        ensures
            w.i == i,
            w.v == v,
    {
        Self { i, v }
    }

    /// The chain-step hash: the Poseidon digest of `(i, v)`, with the index
    /// injected into the field first.
    pub fn hash(&self) -> (r: halo2curves::bn256::Fr)
        ensures
            r == poseidon2(scalar_of_u64(self.i), self.v),
    {
        poseidon_hash(scalar_from_u64(self.i), self.v)
    }
}

} // verus!
