use generic_array::typenum::U2;
use halo2curves::bn256::Fr;
use hash_chain::public_input::{claimed_step_count, initial_chain_state};
use hash_chain::witness::PoseidonWitness;
use hash_chain::Prover;
use neptune::poseidon::{Poseidon, PoseidonConstants};

/// Recompute one chain-step hash directly with neptune, independently of the
/// library's own hashing path.
fn neptune_hash(i: u64, v: Fr) -> Fr {
    let constants: PoseidonConstants<Fr, U2> = PoseidonConstants::new();
    let mut state = Poseidon::new(&constants);
    state.input(Fr::from(i)).expect("first input fits");
    state.input(v).expect("second input fits");
    state.hash()
}

#[test]
fn witness_hash_matches_neptune() {
    let v = Fr::from(100u64);
    let h = PoseidonWitness::new(1, v).hash();
    assert_eq!(h, neptune_hash(1, v));
    // The digest is not either input handed back.
    assert_ne!(h, v);
    assert_ne!(h, Fr::from(1u64));
}

#[test]
fn schedule_concrete_values() {
    let s = Prover::new(100, 4).witnesses();
    assert_eq!(s.len(), 5);
    let mut v = Fr::from(100u64);
    for k in 0..4usize {
        assert!(!s[k].is_final);
        assert_eq!(s[k].i, (k as u64) + 1);
        assert_eq!(s[k].v, v);
        v = neptune_hash((k as u64) + 1, v);
    }
    assert!(s[4].is_final);
    assert_eq!(s[4].i, 0);
    assert_eq!(s[4].v, v);
}

#[test]
fn boundary_zero_steps() {
    let s = Prover::new(100, 0).witnesses();
    assert_eq!(s.len(), 1);
    assert!(s[0].is_final);
    assert_eq!(s[0].i, 0);
    // With no chain steps the closing witness carries the initial value
    // unchanged.
    assert_eq!(s[0].v, Fr::from(100u64));
}

#[test]
fn chain_recurrence_two_steps() {
    let s = Prover::new(7, 2).witnesses();
    let h1 = neptune_hash(1, Fr::from(7u64));
    let h2 = neptune_hash(2, h1);
    assert_eq!(s[0].v, Fr::from(7u64));
    assert_eq!(s[1].v, h1);
    assert_eq!(s[2].v, h2);
    // The same value falls out of the library's own step hash.
    assert_eq!(PoseidonWitness::new(2, h1).hash(), h2);
}

#[test]
fn initial_state_and_step_count() {
    let (index_0, value_0) = initial_chain_state(100);
    assert_eq!(index_0, Fr::from(1u64));
    assert_eq!(value_0, Fr::from(100u64));
    assert_eq!(claimed_step_count(4), Some(5));
    assert_eq!(claimed_step_count(0), Some(1));
    assert_eq!(claimed_step_count(usize::MAX), None);
}

#[test]
fn prover_new_keeps_inputs() {
    let p = Prover::new(42, 16);
    assert_eq!(p.init_value, 42);
    assert_eq!(p.step_num, 16);
    assert_eq!(p.witnesses().len(), 17);
}
