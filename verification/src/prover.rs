//! The chain builder: derives the witness schedule a prover folds.

use crate::chain::{chain_value, schedule_wf};
use crate::circuit::PoseidonCircuit;
use crate::field::scalar_from_u64;
use crate::witness::PoseidonWitness;
use vstd::prelude::*;

verus! {

/// A prover for one hash chain, fixed by its initial value and its number
/// of chain steps. Zero steps is a valid boundary: the chain is then the
/// closing step alone.
#[derive(Clone, Copy, Debug)]
pub struct Prover {
    /// The value the chain starts from.
    pub init_value: u64,
    /// The number of real chain steps; the engine folds one more, closing
    /// step on top of these.
    pub step_num: usize,
}

impl Prover {
    pub fn new(init_value: u64, step_num: usize) -> (p: Self)
        ensures
            p.init_value == init_value,
            p.step_num == step_num,
    {
        Self {
            init_value,
            step_num,
        }
    }

    /// Derives the full witness schedule for this chain: the `step_num`
    /// non-final step witnesses, each carrying its index and the chain
    /// value entering it, then the one closing witness carrying the final
    /// chain value. The values are computed with the plain Poseidon hash,
    /// which the in-circuit gadget must match.
    pub fn witnesses(&self) -> (s: Vec<PoseidonCircuit>)
        ensures
            schedule_wf(self.init_value, self.step_num, s@),
    {
        let mut s: Vec<PoseidonCircuit> = Vec::new();
        let mut v = scalar_from_u64(self.init_value);
        let mut k: usize = 0;
        while k < self.step_num
            invariant
                k <= self.step_num,
                s@.len() == k,
                v == chain_value(self.init_value, k as u64),
                forall|j: int|
                    0 <= j < k ==> s@[j] == (PoseidonCircuit {
                        is_final: false,
                        i: (j + 1) as u64,
                        v: chain_value(self.init_value, j as u64),
                    }),
            decreases self.step_num - k,
        {
            let idx: u64 = (k as u64) + 1;
            s.push(PoseidonCircuit::new(false, idx, v));
            v = PoseidonWitness::new(idx, v).hash();
            k = k + 1;
        }
        s.push(PoseidonCircuit::new(true, 0, v));
        s
    }
}

} // verus!
