use vstd::prelude::*;

use crate::bytes::{bytes_eq, copy_bytes};
use crate::client_state::ClientState;
use crate::consensus::ConsensusState;
use crate::error::Error;
use crate::height::height_lt;
use crate::raw::{decodes, first_decode_error, read_from, RawClientState};
use crate::wire::{
    client_state_type_url, consensus_decodes, consensus_error, consensus_type_url,
    wire_client_state, wire_consensus_state, Any,
};

use ibc_core::commitment_types::merkle::{MerklePath, MerkleProof};
use ibc_core::commitment_types::proto::ics23::HostFunctionsManager;
use ibc_core::commitment_types::proto::v1::{MerkleProof as WireMerkleProof, MerkleRoot};
use ibc_core::commitment_types::specs::ProofSpecs;
use ibc_core::host::types::path::{PathBytes, UpgradeClientStatePath, UpgradeConsensusStatePath};
use ibc_proto::ics23::commitment_proof::Proof;
use ibc_proto::ics23::ExistenceProof;
use prost::Message;

verus! {

/// The proof bytes, read as a wire Merkle proof, show `value` under `root` at the key
/// path `[prefix, path]`, by the given proof specifications.
pub uninterp spec fn proves_membership(
    specs: Seq<ibc_proto::ics23::ProofSpec>,
    root: Seq<u8>,
    prefix: Seq<char>,
    path: Seq<char>,
    value: Seq<u8>,
    proof: Seq<u8>,
) -> bool;

/// The proof bytes show that nothing is stored under `root` at the key path
/// `[prefix, path]`.
pub uninterp spec fn proves_absence(
    specs: Seq<ibc_proto::ics23::ProofSpec>,
    root: Seq<u8>,
    prefix: Seq<char>,
    path: Seq<char>,
    proof: Seq<u8>,
) -> bool;

/// The decimal digits of a number, without leading zeros.
pub open spec fn decimal(n: nat) -> Seq<char>
    decreases n,
{
    let digit = seq!['0', '1', '2', '3', '4', '5', '6', '7', '8', '9'][(n % 10) as int];
    if n < 10 {
        seq![digit]
    } else {
        decimal(n / 10).push(digit)
    }
}

/// The store key under which a chain commits its upgraded client state at a height.
pub open spec fn upgraded_client_key(height: u64) -> Seq<char> {
    "upgradedIBCState/"@ + decimal(height as nat) + "/upgradedClient"@
}

/// The store key under which a chain commits its upgraded consensus state at a height.
pub open spec fn upgraded_consensus_key(height: u64) -> Seq<char> {
    "upgradedIBCState/"@ + decimal(height as nat) + "/upgradedConsState"@
}

/// The binary encoding of an envelope.
pub uninterp spec fn envelope_bytes(type_url: Seq<char>, value: Seq<u8>) -> Seq<u8>;


/// Whether proof bytes decode as a wire Merkle proof.
pub uninterp spec fn proof_decodes(proof: Seq<u8>) -> bool;

/// The inner-node shape of a proof specification: child order, child size, and the least
/// and greatest prefix lengths; `None` where it has no inner specification.
pub uninterp spec fn inner_shape(spec: ibc_proto::ics23::ProofSpec) -> Option<(Seq<i32>, i32, i32, i32)>;

/// A shape on which ics23's verifier neither panics nor overflows: the child order lists
/// each of `0..n` exactly once for some `n >= 1` (it looks every child index up in it, and
/// subtracts one from its length; distinct `i32` values in `0..n` bound `n` by `2^31`),
/// the child size is at least one, and `(n - 1) * child_size`, plus either prefix bound,
/// stays within `i32`.
pub open spec fn shape_safe(t: (Seq<i32>, i32, i32, i32)) -> bool {
    let n = t.0.len() as int;
    &&& 1 <= n <= 0x8000_0000
    &&& forall|i: int| 0 <= i < n ==> 0 <= #[trigger] t.0[i] < n
    &&& forall|i: int, j: int| 0 <= i < j < n ==> t.0[i] != t.0[j]
    &&& t.1 >= 1
    &&& (n - 1) * t.1 <= i32::MAX
    &&& i32::MIN <= (n - 1) * t.1 + t.3 <= i32::MAX
    &&& i32::MIN <= (n - 1) * t.1 + t.2 <= i32::MAX
}

/// Every proof specification has no inner specification (which the verifier refuses
/// outright) or one of a safe shape.
pub open spec fn specs_supported(specs: Seq<ibc_proto::ics23::ProofSpec>) -> bool {
    forall|i: int| 0 <= i < specs.len() ==> (#[trigger] inner_shape(specs[i]) matches Some(t) ==> shape_safe(t))
}

/// The checks that `verify_membership` makes, all passing.
pub open spec fn membership_holds(
    specs: Seq<ibc_proto::ics23::ProofSpec>,
    root: Seq<u8>,
    prefix: Seq<char>,
    path: Seq<char>,
    value: Seq<u8>,
    proof: Seq<u8>,
) -> bool {
    prefix.len() > 0 && proof.len() > 0 && proof_decodes(proof) && specs_supported(specs) && proves_membership(
        specs,
        root,
        prefix,
        path,
        value,
        proof,
    )
}

/// Where proof bytes decode to a Merkle proof whose first commitment proof is a
/// non-existence proof with both neighbours, the steps (prefix, suffix) of the left and
/// the right neighbour's paths.
pub uninterp spec fn neighbour_paths(proof: Seq<u8>) -> Option<(Seq<(Seq<u8>, Seq<u8>)>, Seq<(Seq<u8>, Seq<u8>)>)>;

/// The steps of a path as byte strings.
pub open spec fn steps_view(p: Seq<(Vec<u8>, Vec<u8>)>) -> Seq<(Seq<u8>, Seq<u8>)> {
    p.map_values(|st: (Vec<u8>, Vec<u8>)| (st.0@, st.1@))
}

/// Two paths that, read from their tops down, differ at a step that both have.
pub open spec fn paths_diverge(l: Seq<(Seq<u8>, Seq<u8>)>, r: Seq<(Seq<u8>, Seq<u8>)>) -> bool {
    exists|k: int| 0 <= k < l.len() && k < r.len() && #[trigger] l[l.len() - 1 - k] != r[r.len() - 1 - k]
}

/// Neighbour paths, where the proof has both, diverge; ics23 walks them down from the top
/// while they agree and fails hard where one runs out first.
pub open spec fn neighbours_ok(proof: Seq<u8>) -> bool {
    neighbour_paths(proof) matches Some(p) ==> paths_diverge(p.0, p.1)
}

/// Relies on prost's `Message::decode` for ibc-proto's `MerkleProof` and on the fields of
/// ics23's `NonExistenceProof` and `InnerOp`, read as they stand.
#[verifier::external_body]
fn read_neighbour_paths(proof: &Vec<u8>) -> (r: Option<(Vec<(Vec<u8>, Vec<u8>)>, Vec<(Vec<u8>, Vec<u8>)>)>)
    ensures
        r is None ==> neighbour_paths(proof@) is None,
        r matches Some(p) ==> neighbour_paths(proof@) == Some((steps_view(p.0@), steps_view(p.1@))),
{
    let Ok(wire) = WireMerkleProof::decode(proof.as_slice()) else { return None };
    let steps = |e: &ExistenceProof| e.path.iter().map(|op| (op.prefix.clone(), op.suffix.clone())).collect::<Vec<_>>();
    match wire.proofs.first().and_then(|p| p.proof.as_ref()) {
        Some(Proof::Nonexist(n)) => match (&n.left, &n.right) {
            (Some(l), Some(r)) => Some((steps(l), steps(r))),
            _ => None,
        },
        _ => None,
    }
}

/// Whether the neighbour paths of a proof, where it has both, diverge.
fn neighbours_diverge(proof: &Vec<u8>) -> (r: bool)
    ensures
        r == neighbours_ok(proof@),
{
    match read_neighbour_paths(proof) {
        None => true,
        Some(p) => {
            let l = &p.0;
            let rt = &p.1;
            let ghost lv = steps_view(l@);
            let ghost rv = steps_view(rt@);
            let mut k: usize = 0;
            while k < l.len() && k < rt.len()
                invariant
                    neighbour_paths(proof@) == Some((lv, rv)),
                    lv == steps_view(l@),
                    rv == steps_view(rt@),
                    lv.len() == l@.len(),
                    rv.len() == rt@.len(),
                    k <= l@.len(),
                    k <= rt@.len(),
                    forall|j: int| 0 <= j < k ==> #[trigger] lv[lv.len() - 1 - j] == rv[rv.len() - 1 - j],
                decreases l@.len() - k,
            {
                let a = &l[l.len() - 1 - k];
                let b = &rt[rt.len() - 1 - k];
                assert(lv[lv.len() - 1 - k] == (a.0@, a.1@));
                assert(rv[rv.len() - 1 - k] == (b.0@, b.1@));
                if !(bytes_eq(&a.0, &b.0) && bytes_eq(&a.1, &b.1)) {
                    let ghost kk: int = k as int;
                    assert(lv[lv.len() - 1 - kk] != rv[rv.len() - 1 - kk]);
                    assert(paths_diverge(lv, rv));
                    return true;
                }
                k = k + 1;
            }
            assert(!paths_diverge(lv, rv));
            false
        },
    }
}

/// Relies on prost's `Message::decode` for ibc-proto's `MerkleProof`.
#[verifier::external_body]
fn merkle_proof_decodes(proof: &Vec<u8>) -> (r: bool)
    ensures
        r == proof_decodes(proof@),
{
    WireMerkleProof::decode(proof.as_slice()).is_ok()
}

/// Relies on the fields of ics23's `ProofSpec`: its inner specification's child order,
/// child size and prefix bounds, read as they stand.
#[verifier::external_body]
fn read_inner_shape(spec: &ibc_proto::ics23::ProofSpec) -> (r: Option<(Vec<i32>, i32, i32, i32)>)
    ensures
        r matches Some(t) ==> inner_shape(*spec) == Some((t.0@, t.1, t.2, t.3)),
        r is None ==> inner_shape(*spec) is None,
{
    spec.inner_spec.as_ref().map(|i| (i.child_order.clone(), i.child_size, i.min_prefix_length, i.max_prefix_length))
}

/// Whether a shape is safe.
fn shape_is_safe(t: &(Vec<i32>, i32, i32, i32)) -> (r: bool)
    ensures
        r == shape_safe((t.0@, t.1, t.2, t.3)),
{
    let order = &t.0;
    let n: usize = order.len();
    if n < 1 || n > 0x8000_0000 || t.1 < 1 {
        return false;
    }
    let a: i64 = (n - 1) as i64;
    let b: i64 = t.1 as i64;
    assert(0 <= a * b <= 0x7fff_ffff * 0x7fff_ffff) by (nonlinear_arith)
        requires 0 <= a <= 0x7fff_ffff, 1 <= b <= 0x7fff_ffff;
    let width: i64 = a * b;
    if width > 0x7fff_ffff || width + t.3 as i64 > 0x7fff_ffff || width + (t.3 as i64) < -0x8000_0000
        || width + t.2 as i64 > 0x7fff_ffff || width + (t.2 as i64) < -0x8000_0000 {
        return false;
    }
    let mut i: usize = 0;
    while i < n
        invariant
            n == order@.len(),
            order@ == t.0@,
            1 <= n <= 0x8000_0000,
            t.1 >= 1,
            (n - 1) * t.1 <= i32::MAX,
            i32::MIN <= (n - 1) * t.1 + t.3 <= i32::MAX,
            i32::MIN <= (n - 1) * t.1 + t.2 <= i32::MAX,
            i <= n,
            forall|k: int| 0 <= k < i ==> 0 <= #[trigger] order@[k] < n,
            forall|k: int, l: int| 0 <= k < l < n && k < i ==> order@[k] != order@[l],
        decreases n - i,
    {
        if order[i] < 0 || order[i] as i64 >= n as i64 {
            assert(!(0 <= order@[i as int] < order@.len()));
            return false;
        }
        let mut j: usize = i + 1;
        while j < n
            invariant
                n == order@.len(),
                order@ == t.0@,
                i < n,
                i + 1 <= j <= n,
                forall|l: int| i < l < j ==> order@[i as int] != #[trigger] order@[l],
            decreases n - j,
        {
            if order[i] == order[j] {
                assert(order@[i as int] == order@[j as int]);
                assert(!shape_safe((t.0@, t.1, t.2, t.3)));
                return false;
            }
            j = j + 1;
        }
        i = i + 1;
    }
    true
}

/// Whether the client's proof specifications are supported.
fn specs_are_supported(specs: &Vec<ibc_proto::ics23::ProofSpec>) -> (r: bool)
    ensures
        r == specs_supported(specs@),
{
    let mut i: usize = 0;
    while i < specs.len()
        invariant
            i <= specs@.len(),
            forall|k: int| 0 <= k < i ==> (#[trigger] inner_shape(specs@[k]) matches Some(t) ==> shape_safe(t)),
        decreases specs@.len() - i,
    {
        match read_inner_shape(&specs[i]) {
            None => {},
            Some(t) => {
                if !shape_is_safe(&t) {
                    return false;
                }
            },
        }
        i = i + 1;
    }
    true
}

/// Relies on ibc's `MerkleProof::verify_membership` with ics23's host functions; the
/// specifications, proof bytes (a wire `MerkleProof`), root and keys are converted to its
/// types, and a conversion that fails counts as no proof. The specifications must have safe
/// shapes: ics23 computes with the child order's length and the child size in `i32` and
/// `usize`, and looks up each child index in the order.
#[verifier::external_body]
fn ics23_membership(
    specs: &Vec<ibc_proto::ics23::ProofSpec>,
    root: &Vec<u8>,
    prefix: &str,
    path: &str,
    value: &Vec<u8>,
    proof: &Vec<u8>,
) -> (r: bool)
    requires
        specs_supported(specs@),
    ensures
        r == proves_membership(specs@, root@, prefix@, path@, value@, proof@),
{
    let (Ok(specs), Ok(wire)) = (ProofSpecs::try_from(specs.clone()), WireMerkleProof::decode(proof.as_slice())) else { return false };
    let Ok(merkle) = MerkleProof::try_from(wire) else { return false };
    let keys = MerklePath::new(vec![PathBytes::from_bytes(prefix), PathBytes::from_bytes(path)]);
    merkle.verify_membership::<HostFunctionsManager>(&specs, MerkleRoot { hash: root.clone() }, keys, value.clone(), 0).is_ok()
}

/// Relies on ibc's `MerkleProof::verify_non_membership` with ics23's host functions,
/// with the same conversions and the same demand on the specifications as for membership.
/// The neighbour paths of the proof must diverge: ics23 unwraps a step from each for as
/// long as they agree.
#[verifier::external_body]
fn ics23_absence(
    specs: &Vec<ibc_proto::ics23::ProofSpec>,
    root: &Vec<u8>,
    prefix: &str,
    path: &str,
    proof: &Vec<u8>,
) -> (r: bool)
    requires
        specs_supported(specs@),
        neighbours_ok(proof@),
    ensures
        r == proves_absence(specs@, root@, prefix@, path@, proof@),
{
    let (Ok(specs), Ok(wire)) = (ProofSpecs::try_from(specs.clone()), WireMerkleProof::decode(proof.as_slice())) else { return false };
    let Ok(merkle) = MerkleProof::try_from(wire) else { return false };
    let keys = MerklePath::new(vec![PathBytes::from_bytes(prefix), PathBytes::from_bytes(path)]);
    merkle.verify_non_membership::<HostFunctionsManager>(&specs, MerkleRoot { hash: root.clone() }, keys).is_ok()
}

/// Relies on the text form of ibc's `UpgradeClientStatePath` under the default upgrade
/// path: `upgradedIBCState/{height}/upgradedClient`, the height in decimal.
#[verifier::external_body]
fn upgraded_client_path(height: u64) -> (r: String)
    ensures
        r@ == upgraded_client_key(height),
{
    UpgradeClientStatePath::new_with_default_path(height).to_string()
}

/// Relies on the text form of ibc's `UpgradeConsensusStatePath` under the default upgrade
/// path: `upgradedIBCState/{height}/upgradedConsState`, the height in decimal.
#[verifier::external_body]
fn upgraded_consensus_path(height: u64) -> (r: String)
    ensures
        r@ == upgraded_consensus_key(height),
{
    UpgradeConsensusStatePath::new_with_default_path(height).to_string()
}

/// Relies on prost's `Message::encode_to_vec` for the protobuf `Any` envelope.
#[verifier::external_body]
fn encode_envelope(any: &Any) -> (r: Vec<u8>)
    ensures
        r@ == envelope_bytes(any.type_url@, any.value@),
{
    ibc_proto::google::protobuf::Any { type_url: any.type_url.clone(), value: any.value.clone() }.encode_to_vec()
}

/// The upgraded client state in the envelope reads as `u`.
pub open spec fn upgraded_reads_as(any: Any, u: ClientState) -> bool {
    any.type_url@ == client_state_type_url() && (wire_client_state(any.value@) matches Some(raw)
        && decodes(raw, Ok::<ClientState, Error>(u)))
}

/// Everything that an upgrade must show: the upgraded client state reads and is higher, the
/// consensus envelope holds a readable consensus state, the upgrade path gives a prefix key,
/// and both envelopes are proven under `root` at the upgrade keys of the latest block height.
pub open spec fn upgrade_shown(
    s: ClientState,
    client: Any,
    consensus: Any,
    proof_client: Seq<u8>,
    proof_consensus: Seq<u8>,
    root: Seq<u8>,
) -> bool {
    &&& exists|u: ClientState| #[trigger]
        upgraded_reads_as(client, u) && height_lt(s.latest_height, u.latest_height)
    &&& consensus.type_url@ == consensus_type_url()
    &&& consensus_decodes(consensus.value@)
    &&& s.upgrade_path@.len() >= 2
    &&& s.upgrade_path@[0]@.len() > 0
    &&& membership_holds(
        s.proof_specs@,
        root,
        s.upgrade_path@[0]@,
        upgraded_client_key(s.latest_height.blk()),
        envelope_bytes(client.type_url@, client.value@),
        proof_client,
    )
    &&& membership_holds(
        s.proof_specs@,
        root,
        s.upgrade_path@[0]@,
        upgraded_consensus_key(s.latest_height.blk()),
        envelope_bytes(consensus.type_url@, consensus.value@),
        proof_consensus,
    )
}

/// What a wire state reads as is unique in its latest height: where it reads as `u`, any
/// reading of it succeeds with that height.
proof fn lemma_read_unique(raw: RawClientState, u: ClientState, r: Result<ClientState, Error>)
    requires
        decodes(raw, Ok::<ClientState, Error>(u)),
        decodes(raw, r),
    ensures
        r matches Ok(t) && t.latest_height == u.latest_height,
{
    u.lemma_validation();
    assert(read_from(raw, u));
}

impl ClientState {
    /// Checks a proof that `value` is stored at `path` under `prefix` in the tree of
    /// `root`. An empty prefix gives `EmptyCommitmentPrefix`; proof bytes that are empty or
    /// no Merkle proof give `InvalidCommitmentProof`; specifications on which the verifier
    /// would fail hard give `UnsupportedProofSpecs`; else the verifier decides.
    pub fn verify_membership(
        &self,
        prefix: &str,
        proof: &Vec<u8>,
        root: &Vec<u8>,
        path: &str,
        value: &Vec<u8>,
    ) -> (r: Result<(), Error>)
        ensures
            r is Ok <==> membership_holds(self.proof_specs@, root@, prefix@, path@, value@, proof@),
            prefix@.len() == 0 ==> r == Err::<(), Error>(Error::EmptyCommitmentPrefix),
            prefix@.len() > 0 && (proof@.len() == 0 || !proof_decodes(proof@)) ==> r == Err::<
                (),
                Error,
            >(Error::InvalidCommitmentProof),
            prefix@.len() > 0 && proof@.len() > 0 && proof_decodes(proof@) && !specs_supported(
                self.proof_specs@,
            ) ==> r == Err::<(), Error>(Error::UnsupportedProofSpecs),
            prefix@.len() > 0 && proof@.len() > 0 && proof_decodes(proof@) && specs_supported(
                self.proof_specs@,
            ) ==> (r is Ok <==> proves_membership(
                self.proof_specs@,
                root@,
                prefix@,
                path@,
                value@,
                proof@,
            )) && (r is Err ==> r == Err::<(), Error>(Error::ProofVerificationFailed)),
    {
        if prefix.is_empty() {
            return Err(Error::EmptyCommitmentPrefix);
        }
        if proof.len() == 0 || !merkle_proof_decodes(proof) {
            return Err(Error::InvalidCommitmentProof);
        }
        if !specs_are_supported(&self.proof_specs) {
            return Err(Error::UnsupportedProofSpecs);
        }
        if ics23_membership(&self.proof_specs, root, prefix, path, value, proof) {
            Ok(())
        } else {
            Err(Error::ProofVerificationFailed)
        }
    }

    /// Checks a proof that nothing is stored at `path` under `prefix` in the tree of
    /// `root`, with the same errors as `verify_membership`. A proof whose neighbour paths
    /// never diverge shows nothing and gives `ProofVerificationFailed` without reaching the
    /// verifier, which would fail hard on it.
    pub fn verify_non_membership(
        &self,
        prefix: &str,
        proof: &Vec<u8>,
        root: &Vec<u8>,
        path: &str,
    ) -> (r: Result<(), Error>)
        ensures
            r is Ok <==> (prefix@.len() > 0 && proof@.len() > 0 && proof_decodes(proof@)
                && specs_supported(self.proof_specs@) && neighbours_ok(proof@) && proves_absence(
                self.proof_specs@,
                root@,
                prefix@,
                path@,
                proof@,
            )),
            prefix@.len() == 0 ==> r == Err::<(), Error>(Error::EmptyCommitmentPrefix),
            prefix@.len() > 0 && (proof@.len() == 0 || !proof_decodes(proof@)) ==> r == Err::<
                (),
                Error,
            >(Error::InvalidCommitmentProof),
            prefix@.len() > 0 && proof@.len() > 0 && proof_decodes(proof@) && !specs_supported(
                self.proof_specs@,
            ) ==> r == Err::<(), Error>(Error::UnsupportedProofSpecs),
            prefix@.len() > 0 && proof@.len() > 0 && proof_decodes(proof@) && specs_supported(
                self.proof_specs@,
            ) && r is Err ==> r == Err::<(), Error>(Error::ProofVerificationFailed),
    {
        if prefix.is_empty() {
            return Err(Error::EmptyCommitmentPrefix);
        }
        if proof.len() == 0 || !merkle_proof_decodes(proof) {
            return Err(Error::InvalidCommitmentProof);
        }
        if !specs_are_supported(&self.proof_specs) {
            return Err(Error::UnsupportedProofSpecs);
        }
        if !neighbours_diverge(proof) {
            return Err(Error::ProofVerificationFailed);
        }
        if ics23_absence(&self.proof_specs, root, prefix, path, proof) {
            Ok(())
        } else {
            Err(Error::ProofVerificationFailed)
        }
    }

    /// Checks an upgrade of the counterparty chain, in this order: the upgraded client
    /// state must read, the consensus envelope must hold a readable consensus state, the
    /// upgraded height must be above the latest one, the upgrade path must give a prefix key,
    /// and both envelopes must be proven under `root` at the upgrade keys of the latest
    /// block height.
    pub fn verify_upgrade_client(
        &self,
        upgraded_client_state: &Any,
        upgraded_consensus_state: &Any,
        proof_upgrade_client: &Vec<u8>,
        proof_upgrade_consensus_state: &Vec<u8>,
        root: &Vec<u8>,
    ) -> (r: Result<(), Error>)
        ensures
            r is Ok <==> upgrade_shown(
                *self,
                *upgraded_client_state,
                *upgraded_consensus_state,
                proof_upgrade_client@,
                proof_upgrade_consensus_state@,
                root@,
            ),
            upgraded_client_state.type_url@ != client_state_type_url() ==> r == Err::<(), Error>(
                Error::UnknownClientStateType,
            ),
            upgraded_client_state.type_url@ == client_state_type_url() && wire_client_state(
                upgraded_client_state.value@,
            ) is None ==> r == Err::<(), Error>(Error::Decode),
            upgraded_client_state.type_url@ == client_state_type_url() && (wire_client_state(
                upgraded_client_state.value@,
            ) matches Some(raw) && first_decode_error(raw) matches Some(e)) ==> r == Err::<
                (),
                Error,
            >(first_decode_error(wire_client_state(upgraded_client_state.value@)->0)->0),
            forall|u: ClientState| #[trigger]
                upgraded_reads_as(*upgraded_client_state, u) ==> {
                    &&& upgraded_consensus_state.type_url@ != consensus_type_url() ==> r
                        == Err::<(), Error>(Error::UnknownConsensusStateType)
                    &&& upgraded_consensus_state.type_url@ == consensus_type_url()
                        && wire_consensus_state(upgraded_consensus_state.value@) is None ==> r
                        == Err::<(), Error>(Error::Decode)
                    &&& upgraded_consensus_state.type_url@ == consensus_type_url() && (
                    wire_consensus_state(upgraded_consensus_state.value@) matches Some(c)
                        && consensus_error(c) is Some) ==> r == Err::<(), Error>(
                        consensus_error(wire_consensus_state(upgraded_consensus_state.value@)->0)->0,
                    )
                    &&& upgraded_consensus_state.type_url@ == consensus_type_url()
                        && consensus_decodes(upgraded_consensus_state.value@) && !height_lt(
                        self.latest_height,
                        u.latest_height,
                    ) ==> r == Err::<(), Error>(Error::LowUpgradeHeight)
                    &&& upgraded_consensus_state.type_url@ == consensus_type_url()
                        && consensus_decodes(upgraded_consensus_state.value@) && height_lt(
                        self.latest_height,
                        u.latest_height,
                    ) && self.upgrade_path@.len() == 0 ==> r == Err::<(), Error>(
                        Error::MissingUpgradePath,
                    )
                },
    {
        let copy = Any {
            type_url: upgraded_client_state.type_url.clone(),
            value: copy_bytes(&upgraded_client_state.value),
        };
        let upgraded = match ClientState::from_any(copy) {
            Ok(u) => u,
            Err(e) => {
                proof {
                    assert forall|u: ClientState| #[trigger]
                        upgraded_reads_as(*upgraded_client_state, u) implies false by {
                        lemma_read_unique(wire_client_state(upgraded_client_state.value@)->0, u, Err(e));
                    }
                }
                return Err(e);
            },
        };
        proof {
            assert(upgraded_reads_as(*upgraded_client_state, upgraded));
            assert forall|u: ClientState| #[trigger]
                upgraded_reads_as(*upgraded_client_state, u) implies u.latest_height
                == upgraded.latest_height by {
                lemma_read_unique(
                    wire_client_state(upgraded_client_state.value@)->0,
                    u,
                    Ok::<ClientState, Error>(upgraded),
                );
            }
        }
        match ConsensusState::from_any(upgraded_consensus_state) {
            Ok(_) => {},
            Err(e) => return Err(e),
        }
        let (prefix, last_height) = match self.check_upgrade(&upgraded) {
            Ok(p) => p,
            Err(e) => return Err(e),
        };
        let client_value = encode_envelope(upgraded_client_state);
        let client_path = upgraded_client_path(last_height);
        match self.verify_membership(
            prefix.as_str(),
            proof_upgrade_client,
            root,
            client_path.as_str(),
            &client_value,
        ) {
            Ok(()) => {},
            Err(e) => return Err(e),
        }
        let consensus_value = encode_envelope(upgraded_consensus_state);
        let consensus_path = upgraded_consensus_path(last_height);
        self.verify_membership(
            prefix.as_str(),
            proof_upgrade_consensus_state,
            root,
            consensus_path.as_str(),
            &consensus_value,
        )
    }
}

} // verus!
