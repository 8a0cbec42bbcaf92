use vstd::prelude::*;

use crate::membership::inner_shape;

verus! {

/// An ics23 proof specification, carried through unchanged: the logic here only counts
/// them and hands them to the proof verifier.
#[verifier::external_type_specification]
#[verifier::external_body]
pub struct ExProofSpec(ibc_proto::ics23::ProofSpec);

/// Relies on ibc's `ProofSpecs::cosmos`, which lists ics23's `iavl_spec` and
/// `tendermint_spec` in their wire form; their inner specifications have child order
/// `[0, 1]`, child sizes 33 and 32, and prefix bounds `[4, 12]` and `[1, 1]`.
#[verifier::external_body]
pub fn cosmos_proof_specs() -> (r: Vec<ibc_proto::ics23::ProofSpec>)
    ensures
        r@.len() == 2,
        inner_shape(r@[0]) == Some((seq![0i32, 1i32], 33i32, 4i32, 12i32)),
        inner_shape(r@[1]) == Some((seq![0i32, 1i32], 32i32, 1i32, 1i32)),
{
    ibc_core::commitment_types::specs::ProofSpecs::cosmos().into()
}

} // verus!

verus! {

/// The default specifications are ones that the proof verifier can use.
pub proof fn lemma_cosmos_specs_supported(specs: Seq<ibc_proto::ics23::ProofSpec>)
    requires
        specs.len() == 2,
        inner_shape(specs[0]) == Some((seq![0i32, 1i32], 33i32, 4i32, 12i32)),
        inner_shape(specs[1]) == Some((seq![0i32, 1i32], 32i32, 1i32, 1i32)),
    ensures
        crate::membership::specs_supported(specs),
{
    assert forall|i: int| 0 <= i < specs.len() implies (#[trigger] inner_shape(specs[i]) matches Some(
        t,
    ) ==> crate::membership::shape_safe(t)) by {
        let o = seq![0i32, 1i32];
        assert(o[0] == 0 && o[1] == 1);
    }
}

} // verus!
