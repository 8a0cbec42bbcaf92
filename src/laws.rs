use vstd::prelude::*;

use crate::chain_id::{chain_id_length_ok, chain_id_revision, ChainId};
use crate::client_state::{
    checks, lemma_no_blank, ClientState, MAX_CHAIN_ID_LEN, MIN_CHAIN_ID_LEN,
};
use crate::trust_threshold::verifier_accepts;
use crate::whitespace::blank;
use crate::consensus::{ConsensusState, Header};
use crate::engine::{consensus_of, status_of, Status};
use crate::error::Error;
use crate::height::{height_le, height_max, Height};
use crate::raw::{decodes, encodes, normal, read_from, spans_fit, wire_of, RawClientState};
use crate::span::Span;
use crate::trust_threshold::TrustThreshold;

verus! {

/// A client state passes validation exactly when all nine checks hold of its fields:
/// chain identifier length, non-zero trust level that the verifier accepts, positive
/// trusting and unbonding periods with the first below the second, positive clock drift,
/// latest height in the chain identifier's revision, some proof specification, and no
/// blank upgrade-path key. `ClientState::new` succeeds exactly when validation passes.
pub proof fn law_validation_totality(s: ClientState)
    ensures
        s.validation() is Ok <==> s.fields_valid(),
{
    s.lemma_validation();
}

/// A client state accepted by the checks is read back from its wire form unchanged: the
/// same chain identifier text and the same value in every other field. Only an unfrozen
/// state can be read back, since a frozen one is refused on reading.
pub proof fn law_round_trip(s: ClientState, raw: RawClientState, r: Result<ClientState, Error>)
    requires
        s.wf(),
        s.frozen_height is None,
        spans_fit(s),
        encodes(s, raw),
        decodes(raw, r),
    ensures
        r matches Ok(t) && t.chain_id.view() == s.chain_id.view() && t.chain_id.revision()
            == s.chain_id.revision() && t.trust_level == s.trust_level && t.trusting_period
            == s.trusting_period && t.unbonding_period == s.unbonding_period
            && t.max_clock_drift == s.max_clock_drift && t.latest_height == s.latest_height
            && t.proof_specs == s.proof_specs && t.upgrade_path == s.upgrade_path
            && t.allow_update == s.allow_update && t.frozen_height is None,
{
    assert(normal(wire_of(s.trusting_period)));
    assert(normal(wire_of(s.unbonding_period)));
    assert(normal(wire_of(s.max_clock_drift)));
    s.lemma_validation();
    assert(read_from(raw, s));
}

/// With every other check passing, a trusting period one nanosecond below the unbonding
/// period is accepted and an equal one refused.
pub proof fn law_trusting_below_unbonding(
    chain_id: ChainId,
    trust_level: TrustThreshold,
    trusting_period: Span,
    longer: Span,
    max_clock_drift: Span,
    latest_height: Height,
    n_proof_specs: nat,
    path: Seq<Seq<char>>,
)
    requires
        chain_id_length_ok(chain_id.view(), MIN_CHAIN_ID_LEN, MAX_CHAIN_ID_LEN),
        !trust_level.is_zero(),
        verifier_accepts(trust_level.numerator, trust_level.denominator),
        trusting_period.total() > 0,
        longer.total() == trusting_period.total() + 1,
        max_clock_drift.total() > 0,
        latest_height.rev() == chain_id.revision(),
        n_proof_specs > 0,
        forall|i: int| 0 <= i < path.len() ==> !blank(#[trigger] path[i]),
    ensures
        checks(chain_id, trust_level, trusting_period, longer, max_clock_drift, latest_height, n_proof_specs, path) is Ok,
        checks(chain_id, trust_level, trusting_period, trusting_period, max_clock_drift, latest_height, n_proof_specs, path)
            == Err::<(), Error>(Error::TrustingPeriodNotBelowUnbonding),
{
    lemma_no_blank(path);
}

/// Advancing a client state with a header never lowers its latest height, and a header at
/// or below that height leaves it as it was.
pub proof fn law_with_header_monotonic(s: ClientState, header: Header)
    ensures
        height_le(s.latest_height, height_max(header.height, s.latest_height)),
        height_le(header.height, s.latest_height) ==> height_max(header.height, s.latest_height)
            == s.latest_height,
{
}

/// A frozen client is frozen whatever consensus state is stored and whatever the time.
pub proof fn law_frozen_first(
    latest_consensus_time: Option<u64>,
    host_time: u64,
    trusting_period: Span,
)
    ensures
        status_of(true, latest_consensus_time, host_time, trusting_period.total())
            == Status::Frozen,
{
}

/// A client whose latest consensus state is dated `t` is still active at `t` plus the
/// trusting period, and expired one nanosecond later.
pub proof fn law_expiry_boundary(t: u64, trusting_period: Span)
    requires
        t + trusting_period.total() + 1 <= u64::MAX,
    ensures
        status_of(false, Some(t), (t + trusting_period.total()) as u64, trusting_period.total())
            == Status::Active,
        status_of(false, Some(t), (t + trusting_period.total() + 1) as u64, trusting_period.total())
            == Status::Expired,
{
}

/// A wire client state whose other fields all read, but whose frozen height is not zero,
/// is refused with `FrozenHeightNotAllowed`.
pub proof fn law_frozen_decode_refused(raw: RawClientState, r: Result<ClientState, Error>)
    requires
        chain_id_revision(raw.chain_id@) is Some,
        raw.trust_level matches Some(f) && TrustThreshold::valid_fraction(
            f.numerator,
            f.denominator,
        ),
        raw.trusting_period matches Some(d) && normal(d),
        raw.unbonding_period matches Some(d) && normal(d),
        raw.max_clock_drift matches Some(d) && normal(d),
        raw.latest_height matches Some(h) && h.revision_height != 0,
        raw.frozen_height matches Some(h) && (h.revision_number != 0 || h.revision_height != 0),
        decodes(raw, r),
    ensures
        r == Err::<ClientState, Error>(Error::FrozenHeightNotAllowed),
{
}

/// The client state and consensus states stored after a header is applied: nothing
/// changes where a consensus state is stored at the header's height; else the client
/// advances to the header and its consensus state is stored at its height.
pub open spec fn after_update(
    s: ClientState,
    stored: Map<Height, ConsensusState>,
    header: Header,
) -> (ClientState, Map<Height, ConsensusState>) {
    if stored.contains_key(header.height) {
        (s, stored)
    } else {
        (
            ClientState { latest_height: height_max(header.height, s.latest_height), ..s },
            stored.insert(header.height, consensus_of(header)),
        )
    }
}

/// Applying the same header twice in a row stores the same as applying it once.
pub proof fn law_update_idempotent(
    s: ClientState,
    stored: Map<Height, ConsensusState>,
    header: Header,
)
    ensures
        after_update(after_update(s, stored, header).0, after_update(s, stored, header).1, header)
            == after_update(s, stored, header),
{
}

} // verus!
