//! The boundary to the scalar field and to the Poseidon hash.
//!
//! Chain values are elements of the BN256 scalar field. The library never
//! looks inside a field element: it only injects small integers into the
//! field and hashes pairs of elements, so the element type is declared
//! opaque and the two operations are named.

use vstd::prelude::*;

verus! {

/// The scalar field of the BN256 curve, over which the hash chain runs.
/// Values of it are carried through the library unopened.
#[verifier::external_type_specification]
#[verifier::external_body]
pub struct ExScalar(halo2curves::bn256::Fr);

/// The field element that the field's conversion from `u64` returns for `n`.
pub uninterp spec fn scalar_of_u64(n: u64) -> halo2curves::bn256::Fr;

/// The digest that the arity-2 Poseidon hash returns for the preimage
/// `(a, b)`, under the standard constants for this field.
pub uninterp spec fn poseidon2(a: halo2curves::bn256::Fr, b: halo2curves::bn256::Fr) -> halo2curves::bn256::Fr;

/// Relies on `halo2curves::bn256::Fr::from(u64)`: a deterministic injection
/// of `n` into the field.
#[verifier::external_body]
pub(crate) fn scalar_from_u64(n: u64) -> (r: halo2curves::bn256::Fr)
    ensures
        r == scalar_of_u64(n),
{
    halo2curves::bn256::Fr::from(n)
}

/// Relies on neptune's `PoseidonConstants::new` (round constants are a pure
/// function of the field and the arity) and `Poseidon::{new, input, hash}`:
/// with arity 2 the buffer holds the domain tag plus two elements, so both
/// `input` calls succeed, and `hash` returns a digest that depends on the two
/// inputs and the fixed constants alone.
#[verifier::external_body]
pub(crate) fn poseidon_hash(a: halo2curves::bn256::Fr, b: halo2curves::bn256::Fr) -> (r: halo2curves::bn256::Fr)
    ensures
        r == poseidon2(a, b),
{
    let constants: neptune::poseidon::PoseidonConstants<
        halo2curves::bn256::Fr,
        generic_array::typenum::U2,
    > = neptune::poseidon::PoseidonConstants::new();
    let mut state = neptune::poseidon::Poseidon::new(&constants);
    let _ = state.input(a);
    let _ = state.input(b);
    state.hash()
}

} // verus!
