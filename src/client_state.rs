use vstd::prelude::*;

use crate::chain_id::{chain_id_length_ok, ChainId};
use crate::error::Error;
use crate::height::{height_le, height_lt, height_max, Height};
use crate::span::Span;
use crate::trust_threshold::{verifier_accepts, verifier_accepts_threshold, TrustThreshold};
use crate::consensus::Header;
use crate::whitespace::{blank, is_blank};

verus! {

/// The longest chain identifier that tendermint accepts (its `chain::id::MAX_LENGTH`).
pub const MAX_CHAIN_ID_LEN: u64 = 50;

/// The shortest chain identifier that this client accepts.
pub const MIN_CHAIN_ID_LEN: u64 = 3;

/// Two flags kept for the wire format; no rule here consults them.
#[derive(Clone, Copy, Debug, PartialEq, Eq, Structural)]
pub struct AllowUpdate {
    pub after_expiry: bool,
    pub after_misbehaviour: bool,
}

/// What this chain believes of the counterparty chain, and how far it trusts it.
#[derive(Clone, Debug, PartialEq)]
pub struct ClientState {
    pub chain_id: ChainId,
    pub trust_level: TrustThreshold,
    pub trusting_period: Span,
    pub unbonding_period: Span,
    pub max_clock_drift: Span,
    pub latest_height: Height,
    pub proof_specs: Vec<ibc_proto::ics23::ProofSpec>,
    pub upgrade_path: Vec<String>,
    pub allow_update: AllowUpdate,
    pub frozen_height: Option<Height>,
}

/// The texts of an upgrade path.
pub open spec fn path_texts(p: Seq<String>) -> Seq<Seq<char>> {
    p.map_values(|s: String| s@)
}

/// The index of the first blank key of an upgrade path, or `p.len()` where none is blank.
pub open spec fn first_blank(p: Seq<Seq<char>>) -> nat
    decreases p.len(),
{
    if p.len() == 0 {
        0
    } else if blank(p[0]) {
        0
    } else {
        1 + first_blank(p.drop_first())
    }
}

/// The checks of the fields of a client state, in order; the first that fails gives the
/// error.
pub open spec fn checks(
    chain_id: ChainId,
    trust_level: TrustThreshold,
    trusting_period: Span,
    unbonding_period: Span,
    max_clock_drift: Span,
    latest_height: Height,
    n_proof_specs: nat,
    path: Seq<Seq<char>>,
) -> Result<(), Error> {
    if !chain_id_length_ok(chain_id.view(), MIN_CHAIN_ID_LEN, MAX_CHAIN_ID_LEN) {
        Err(Error::InvalidChainIdLength)
    } else if trust_level.is_zero() {
        Err(Error::ZeroTrustThreshold)
    } else if !verifier_accepts(trust_level.numerator, trust_level.denominator) {
        Err(Error::TrustThresholdRejectedByVerifier)
    } else if trusting_period.total() == 0 {
        Err(Error::ZeroTrustingPeriod)
    } else if unbonding_period.total() == 0 {
        Err(Error::ZeroUnbondingPeriod)
    } else if trusting_period.total() >= unbonding_period.total() {
        Err(Error::TrustingPeriodNotBelowUnbonding)
    } else if max_clock_drift.total() == 0 {
        Err(Error::ZeroMaxClockDrift)
    } else if latest_height.rev() != chain_id.revision() {
        Err(Error::LatestHeightRevisionMismatch)
    } else if n_proof_specs == 0 {
        Err(Error::EmptyProofSpecs)
    } else if first_blank(path) < path.len() {
        Err(Error::BlankUpgradePathKey { index: first_blank(path) as usize })
    } else {
        Ok(())
    }
}

proof fn lemma_first_blank(p: Seq<Seq<char>>, i: int)
    requires
        0 <= i <= p.len(),
        forall|j: int| 0 <= j < i ==> !blank(#[trigger] p[j]),
        i == p.len() || blank(p[i]),
    ensures
        first_blank(p) == i,
    decreases i,
{
    if i > 0 {
        assert(!blank(p[0]));
        let q = p.drop_first();
        assert forall|j: int| 0 <= j < i - 1 implies !blank(#[trigger] q[j]) by {
            assert(q[j] == p[j + 1]);
        }
        if i < p.len() {
            assert(q[i - 1] == p[i]);
        }
        lemma_first_blank(q, i - 1);
    }
}

impl ClientState {
    pub open spec fn spec_max_clock_drift(&self) -> Span {
        self.max_clock_drift
    }

    pub open spec fn spec_allow_update(&self) -> AllowUpdate {
        self.allow_update
    }

    pub open spec fn spec_frozen_height(&self) -> Option<Height> {
        self.frozen_height
    }

    /// The upgrade path's keys as texts.
    pub open spec fn path(&self) -> Seq<Seq<char>> {
        path_texts(self.upgrade_path@)
    }

    /// The outcome of the checks of a client state's fields, in order; the first that
    /// fails gives the error.
    pub open spec fn validation(&self) -> Result<(), Error> {
        checks(
            self.chain_id,
            self.trust_level,
            self.trusting_period,
            self.unbonding_period,
            self.max_clock_drift,
            self.latest_height,
            self.proof_specs@.len(),
            self.path(),
        )
    }

    /// All checks pass; said without their order.
    pub open spec fn fields_valid(&self) -> bool {
        &&& chain_id_length_ok(self.chain_id.view(), MIN_CHAIN_ID_LEN, MAX_CHAIN_ID_LEN)
        &&& !self.trust_level.is_zero()
        &&& verifier_accepts(self.trust_level.numerator, self.trust_level.denominator)
        &&& 0 < self.trusting_period.total() < self.unbonding_period.total()
        &&& self.spec_max_clock_drift().total() > 0
        &&& self.latest_height.rev() == self.chain_id.revision()
        &&& self.proof_specs@.len() > 0
        &&& forall|i: int| 0 <= i < self.path().len() ==> !blank(#[trigger] self.path()[i])
    }

    /// The invariant of a client state in use: its parts are well formed and its fields
    /// pass every check.
    pub open spec fn wf(&self) -> bool {
        &&& self.chain_id.wf()
        &&& self.trust_level.wf()
        &&& self.trusting_period.wf()
        &&& self.unbonding_period.wf()
        &&& self.spec_max_clock_drift().wf()
        &&& self.latest_height.wf()
        &&& self.fields_valid()
    }

    /// The parts are well formed, whether or not the checks pass.
    pub open spec fn parts_wf(&self) -> bool {
        &&& self.chain_id.wf()
        &&& self.trust_level.wf()
        &&& self.trusting_period.wf()
        &&& self.unbonding_period.wf()
        &&& self.spec_max_clock_drift().wf()
        &&& self.latest_height.wf()
    }

    /// A client state of the given fields, not frozen.
    pub open spec fn assembled(
        chain_id: ChainId,
        trust_level: TrustThreshold,
        trusting_period: Span,
        unbonding_period: Span,
        max_clock_drift: Span,
        latest_height: Height,
        proof_specs: Vec<ibc_proto::ics23::ProofSpec>,
        upgrade_path: Vec<String>,
        allow_update: AllowUpdate,
        s: ClientState,
    ) -> bool {
        &&& s.chain_id == chain_id
        &&& s.trust_level == trust_level
        &&& s.trusting_period == trusting_period
        &&& s.unbonding_period == unbonding_period
        &&& s.spec_max_clock_drift() == max_clock_drift
        &&& s.latest_height == latest_height
        &&& s.proof_specs == proof_specs
        &&& s.upgrade_path == upgrade_path
        &&& s.spec_allow_update() == allow_update
        &&& s.spec_frozen_height() is None
    }

    pub(crate) fn new_without_validation(
        chain_id: ChainId,
        trust_level: TrustThreshold,
        trusting_period: Span,
        unbonding_period: Span,
        max_clock_drift: Span,
        latest_height: Height,
        proof_specs: Vec<ibc_proto::ics23::ProofSpec>,
        upgrade_path: Vec<String>,
        allow_update: AllowUpdate,
    ) -> (r: ClientState)
        ensures
            Self::assembled(
                chain_id,
                trust_level,
                trusting_period,
                unbonding_period,
                max_clock_drift,
                latest_height,
                proof_specs,
                upgrade_path,
                allow_update,
                r,
            ),
    {
        ClientState {
            chain_id,
            trust_level,
            trusting_period,
            unbonding_period,
            max_clock_drift,
            latest_height,
            proof_specs,
            upgrade_path,
            allow_update,
            frozen_height: None,
        }
    }

    /// The checks' order and their unordered statement agree.
    pub proof fn lemma_validation(&self)
        ensures
            self.validation() is Ok <==> self.fields_valid(),
    {
        let p = self.path();
        if forall|i: int| 0 <= i < p.len() ==> !blank(#[trigger] p[i]) {
            lemma_first_blank(p, p.len() as int);
        } else if first_blank(p) >= p.len() {
            lemma_first_blank_none(p);
        }
    }

    /// Runs every check on the fields; the first that fails gives the error.
    pub fn validate(&self) -> (r: Result<(), Error>)
        requires
            self.parts_wf(),
        ensures
            r == self.validation(),
    {
        if !self.chain_id.validate_length(MIN_CHAIN_ID_LEN, MAX_CHAIN_ID_LEN) {
            return Err(Error::InvalidChainIdLength);
        }
        if self.trust_level.numerator == 0 && self.trust_level.denominator == 0 {
            return Err(Error::ZeroTrustThreshold);
        }
        if !verifier_accepts_threshold(&self.trust_level) {
            return Err(Error::TrustThresholdRejectedByVerifier);
        }
        if self.trusting_period.is_zero() {
            return Err(Error::ZeroTrustingPeriod);
        }
        if self.unbonding_period.is_zero() {
            return Err(Error::ZeroUnbondingPeriod);
        }
        if !self.trusting_period.lt(&self.unbonding_period) {
            return Err(Error::TrustingPeriodNotBelowUnbonding);
        }
        if self.max_clock_drift.is_zero() {
            return Err(Error::ZeroMaxClockDrift);
        }
        if self.latest_height.revision_number() != self.chain_id.revision_number() {
            return Err(Error::LatestHeightRevisionMismatch);
        }
        if self.proof_specs.len() == 0 {
            return Err(Error::EmptyProofSpecs);
        }
        let n: usize = self.upgrade_path.len();
        let mut i: usize = 0;
        assert(self.path().len() == n);
        while i < n
            invariant
                n == self.upgrade_path@.len(),
                n == self.path().len(),
                i <= n,
                self.validation() == (if first_blank(self.path()) < self.path().len() {
                    Err(Error::BlankUpgradePathKey { index: first_blank(self.path()) as usize })
                } else {
                    Ok(())
                }),
                forall|j: int| 0 <= j < i ==> !blank(#[trigger] self.path()[j]),
            decreases n - i,
        {
            assert(self.path()[i as int] == self.upgrade_path@[i as int]@);
            if is_blank(self.upgrade_path[i].as_str()) {
                proof {
                    lemma_first_blank(self.path(), i as int);
                }
                return Err(Error::BlankUpgradePathKey { index: i });
            }
            i = i + 1;
        }
        proof {
            assert(self.path().len() == n);
            lemma_first_blank(self.path(), n as int);
        }
        Ok(())
    }
}

/// The options that the header verifier takes from a client state.
#[derive(Clone, Copy, Debug, PartialEq, Eq, Structural)]
pub struct LightClientOptions {
    pub trust_threshold: TrustThreshold,
    pub trusting_period: Span,
    pub clock_drift: Span,
}

impl ClientState {
    /// A validated client state of the given fields, not frozen; the first check that fails
    /// gives the error.
    pub fn new(
        chain_id: ChainId,
        trust_level: TrustThreshold,
        trusting_period: Span,
        unbonding_period: Span,
        max_clock_drift: Span,
        latest_height: Height,
        proof_specs: Vec<ibc_proto::ics23::ProofSpec>,
        upgrade_path: Vec<String>,
        allow_update: AllowUpdate,
    ) -> (r: Result<ClientState, Error>)
        requires
            chain_id.wf(),
            trust_level.wf(),
            trusting_period.wf(),
            unbonding_period.wf(),
            max_clock_drift.wf(),
            latest_height.wf(),
        ensures
            r matches Err(e) ==> checks(
                chain_id,
                trust_level,
                trusting_period,
                unbonding_period,
                max_clock_drift,
                latest_height,
                proof_specs@.len(),
                path_texts(upgrade_path@),
            ) == Err::<(), Error>(e),
            r matches Ok(t) ==> Self::assembled(
                chain_id,
                trust_level,
                trusting_period,
                unbonding_period,
                max_clock_drift,
                latest_height,
                proof_specs,
                upgrade_path,
                allow_update,
                t,
            ),
            r is Ok <==> checks(
                chain_id,
                trust_level,
                trusting_period,
                unbonding_period,
                max_clock_drift,
                latest_height,
                proof_specs@.len(),
                path_texts(upgrade_path@),
            ) is Ok,
            r matches Ok(t) ==> t.wf(),
    {
        let client_state = Self::new_without_validation(
            chain_id,
            trust_level,
            trusting_period,
            unbonding_period,
            max_clock_drift,
            latest_height,
            proof_specs,
            upgrade_path,
            allow_update,
        );
        proof {
            client_state.lemma_validation();
        }
        match client_state.validate() {
            Ok(()) => Ok(client_state),
            Err(e) => Err(e),
        }
    }

    /// The state with its latest height raised to the header's height; a header at or below
    /// the latest height leaves it as it was.
    pub fn with_header(self, header: &Header) -> (r: Result<ClientState, Error>)
        ensures
            r == Ok::<ClientState, Error>(
                ClientState { latest_height: height_max(header.height, self.latest_height), ..self },
            ),
    {
        let latest_height = header.height.max(self.latest_height);
        Ok(ClientState { latest_height, ..self })
    }

    /// The state marked frozen at `h`.
    pub fn with_frozen_height(self, h: Height) -> (r: ClientState)
        ensures
            r == (ClientState { frozen_height: Some(h), ..self }),
    {
        ClientState { frozen_height: Some(h), ..self }
    }

    /// When a relayer should refresh the client: two thirds of the trusting period.
    pub fn refresh_time(&self) -> (r: Option<Span>)
        requires
            self.trusting_period.wf(),
        ensures
            r matches Some(t) && t.total() == (2 * self.trusting_period.total()) / 3 && t.wf(),
    {
        Some(self.trusting_period.two_thirds())
    }

    /// The header verifier's options; fails where the verifier does not accept the trust
    /// threshold.
    pub fn as_light_client_options(&self) -> (r: Result<LightClientOptions, Error>)
        ensures
            verifier_accepts(self.trust_level.numerator, self.trust_level.denominator) ==> r
                == Ok::<LightClientOptions, Error>(
                LightClientOptions {
                    trust_threshold: self.trust_level,
                    trusting_period: self.trusting_period,
                    clock_drift: self.max_clock_drift,
                },
            ),
            !verifier_accepts(self.trust_level.numerator, self.trust_level.denominator) ==> r
                == Err::<LightClientOptions, Error>(Error::InvalidTrustThreshold),
    {
        if !verifier_accepts_threshold(&self.trust_level) {
            return Err(Error::InvalidTrustThreshold);
        }
        Ok(
            LightClientOptions {
                trust_threshold: self.trust_level,
                trusting_period: self.trusting_period,
                clock_drift: self.max_clock_drift,
            },
        )
    }

    pub fn chain_id(&self) -> (r: &ChainId)
        ensures
            r == self.chain_id,
    {
        &self.chain_id
    }

    pub fn is_frozen(&self) -> (r: bool)
        ensures
            r == self.frozen_height is Some,
    {
        self.frozen_height.is_some()
    }

    pub fn frozen_height(&self) -> (r: Option<Height>)
        ensures
            r == self.frozen_height,
    {
        self.frozen_height
    }

    pub fn max_clock_drift(&self) -> (r: Span)
        ensures
            r == self.max_clock_drift,
    {
        self.max_clock_drift
    }

    pub fn allow_update(&self) -> (r: AllowUpdate)
        ensures
            r == self.allow_update,
    {
        self.allow_update
    }

    /// Clears the fields that each client chooses for itself: trusting period, trust level,
    /// clock drift, update flags and the frozen mark.
    pub fn zero_custom_fields(&mut self)
        ensures
            *final(self) == (ClientState {
                trusting_period: Span { secs: 0, nanos: 0 },
                trust_level: TrustThreshold { numerator: 0, denominator: 0 },
                allow_update: AllowUpdate { after_expiry: false, after_misbehaviour: false },
                frozen_height: None,
                max_clock_drift: Span { secs: 0, nanos: 0 },
                ..*old(self)
            }),
    {
        self.trusting_period = Span::zero();
        self.trust_level = TrustThreshold::zero();
        self.allow_update.after_expiry = false;
        self.allow_update.after_misbehaviour = false;
        self.frozen_height = None;
        self.max_clock_drift = Span::zero();
    }

    /// The kind of client that this state belongs to.
    pub fn client_type(&self) -> (r: &'static str)
        ensures
            r@ == "07-tendermint"@,
    {
        "07-tendermint"
    }

    pub fn latest_height(&self) -> (r: Height)
        ensures
            r == self.latest_height,
    {
        self.latest_height
    }

    /// Fails where a proof is claimed at a height above the latest one.
    pub fn validate_proof_height(&self, proof_height: Height) -> (r: Result<(), Error>)
        ensures
            r is Err <==> height_lt(self.latest_height, proof_height),
            r matches Err(e) ==> e == Error::InvalidProofHeight,
    {
        if self.latest_height.lt(&proof_height) {
            return Err(Error::InvalidProofHeight);
        }
        Ok(())
    }
}

/// An upgrade path with no blank key has none at `first_blank`.
pub proof fn lemma_no_blank(p: Seq<Seq<char>>)
    requires
        forall|i: int| 0 <= i < p.len() ==> !blank(#[trigger] p[i]),
    ensures
        first_blank(p) == p.len(),
{
    lemma_first_blank(p, p.len() as int);
}

proof fn lemma_first_blank_none(p: Seq<Seq<char>>)
    ensures
        first_blank(p) <= p.len(),
        first_blank(p) < p.len() ==> blank(p[first_blank(p) as int]),
        first_blank(p) == p.len() ==> forall|i: int| 0 <= i < p.len() ==> !blank(#[trigger] p[i]),
    decreases p.len(),
{
    if p.len() > 0 && !blank(p[0]) {
        let q = p.drop_first();
        lemma_first_blank_none(q);
        if first_blank(p) == p.len() {
            assert forall|i: int| 0 <= i < p.len() implies !blank(#[trigger] p[i]) by {
                if i > 0 {
                    assert(p[i] == q[i - 1]);
                }
            }
        } else {
            assert(p[first_blank(p) as int] == q[first_blank(q) as int]);
        }
    }
}

} // verus!
