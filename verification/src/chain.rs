//! The hash chain itself, and the shape of an honest witness schedule.

use crate::circuit::{step_accepts, step_output_index, step_output_value, PoseidonCircuit};
use crate::field::{poseidon2, scalar_of_u64};
use vstd::prelude::*;

verus! {

/// The value of the hash chain after `k` steps:
/// `v_0 = init_value` (injected into the field), `v_k = H(k, v_{k-1})`.
pub open spec fn chain_value(init_value: u64, k: u64) -> halo2curves::bn256::Fr
    decreases k,
{
    if k == 0 {
        scalar_of_u64(init_value)
    } else {
        poseidon2(scalar_of_u64(k), chain_value(init_value, (k - 1) as u64))
    }
}

/// An honest witness schedule for `(init_value, step_num)`: exactly
/// `step_num` non-final witnesses, the `k`-th (from zero) carrying index
/// `k + 1` and the chain value after `k` steps, followed by exactly one
/// closing witness whose index is a dummy zero and whose value is the last
/// real chain value.
pub open spec fn schedule_wf(init_value: u64, step_num: usize, s: Seq<PoseidonCircuit>) -> bool {
    &&& s.len() == step_num + 1
    &&& forall|k: int|
        0 <= k < step_num ==> s[k] == (PoseidonCircuit {
            is_final: false,
            i: (k + 1) as u64,
            v: chain_value(init_value, k as u64),
        })
    &&& s[step_num as int] == (PoseidonCircuit {
        is_final: true,
        i: 0,
        v: chain_value(init_value, step_num as u64),
    })
}

/// Completeness of an honest schedule: fed the public states that follow
/// the chain, every witness in it is accepted by the step relation, and
/// each non-final step outputs exactly the next chain state. The `k`-th
/// fold consumes public state `(k + 1, chain_value(init_value, k))`; the
/// start state is `(1, chain_value(init_value, 0))`.
pub proof fn lemma_schedule_drives_chain(init_value: u64, step_num: usize, s: Seq<PoseidonCircuit>)
    requires
        schedule_wf(init_value, step_num, s),
        step_num < u64::MAX,
    ensures
        forall|k: int|
            0 <= k <= step_num ==> step_accepts(
                #[trigger] s[k],
                k + 1,
                chain_value(init_value, k as u64),
            ),
        forall|k: int|
            0 <= k < step_num ==> step_output_index(#[trigger] s[k]) == k + 2,
        forall|k: int|
            0 <= k < step_num ==> #[trigger] step_output_value(
                k + 1,
                chain_value(init_value, k as u64),
            ) == chain_value(init_value, (k + 1) as u64),
        // The closing witness is accepted against any public index at all:
        // its index binding is vacuous, only its value is pinned.
        forall|idx: int|
            #[trigger] step_accepts(
                s[step_num as int],
                idx,
                chain_value(init_value, step_num as u64),
            ),
{
    assert forall|k: int| 0 <= k <= step_num implies step_accepts(
        #[trigger] s[k],
        k + 1,
        chain_value(init_value, k as u64),
    ) by {
        if k < step_num {
            assert(s[k].i == k + 1);
        }
    }
    assert forall|k: int| 0 <= k < step_num implies #[trigger] step_output_value(
        k + 1,
        chain_value(init_value, k as u64),
    ) == chain_value(init_value, (k + 1) as u64) by {
        let next: u64 = (k + 1) as u64;
        assert(chain_value(init_value, next) == poseidon2(
            scalar_of_u64(next),
            chain_value(init_value, (next - 1) as u64),
        ));
    }
}

/// The boundary chain: with no steps the schedule is the closing witness
/// alone, and it carries the initial value unchanged.
pub proof fn lemma_zero_steps(init_value: u64, s: Seq<PoseidonCircuit>)
    requires
        schedule_wf(init_value, 0, s),
    ensures
        s.len() == 1,
        s[0] == (PoseidonCircuit { is_final: true, i: 0, v: scalar_of_u64(init_value) }),
        chain_value(init_value, 0) == scalar_of_u64(init_value),
{
}

} // verus!
