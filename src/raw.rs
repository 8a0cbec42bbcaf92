use vstd::prelude::*;

use crate::chain_id::{chain_id_revision, ChainId};
use crate::client_state::{AllowUpdate, ClientState};
use crate::error::Error;
use crate::height::Height;
use crate::span::Span;
use crate::trust_threshold::TrustThreshold;

verus! {

/// A height as the wire carries it; zero stands for "none".
#[derive(Clone, Copy, Debug, PartialEq, Eq, Structural)]
pub struct RawHeight {
    pub revision_number: u64,
    pub revision_height: u64,
}

/// A length of time as the wire carries it: signed seconds and nanoseconds.
#[derive(Clone, Copy, Debug, PartialEq, Eq, Structural)]
pub struct RawDuration {
    pub seconds: i64,
    pub nanos: i32,
}

/// A trust threshold as the wire carries it.
#[derive(Clone, Copy, Debug, PartialEq, Eq, Structural)]
pub struct Fraction {
    pub numerator: u64,
    pub denominator: u64,
}

/// A client state in its wire form, field for field.
#[derive(Clone, Debug, PartialEq)]
pub struct RawClientState {
    pub chain_id: String,
    pub trust_level: Option<Fraction>,
    pub trusting_period: Option<RawDuration>,
    pub unbonding_period: Option<RawDuration>,
    pub max_clock_drift: Option<RawDuration>,
    pub frozen_height: Option<RawHeight>,
    pub latest_height: Option<RawHeight>,
    pub proof_specs: Vec<ibc_proto::ics23::ProofSpec>,
    pub upgrade_path: Vec<String>,
    pub allow_update_after_expiry: bool,
    pub allow_update_after_misbehaviour: bool,
}

/// The seconds and nanoseconds of the non-negative length of time that a wire duration
/// stands for, or `None` where it is negative.
pub uninterp spec fn span_of_wire(seconds: i64, nanos: i32) -> Option<(u64, u32)>;

/// A wire duration already in normal form and not negative.
pub open spec fn normal(d: RawDuration) -> bool {
    d.seconds >= 0 && 0 <= d.nanos < 1_000_000_000
}

/// `s` is what the wire duration `d` reads as: its own seconds and nanoseconds where it is
/// in normal form and not negative.
pub open spec fn reads_as(d: RawDuration, s: Span) -> bool {
    &&& s.wf()
    &&& if normal(d) {
        s.secs == d.seconds as u64 && s.nanos == d.nanos as u32
    } else {
        span_of_wire(d.seconds, d.nanos) == Some((s.secs, s.nanos))
    }
}

/// Seconds so far below zero that the wire duration is negative whatever its
/// nanoseconds; the converter cannot take them.
pub open spec fn far_negative(d: RawDuration) -> bool {
    d.seconds <= i64::MIN + 2
}

/// A duration field that is missing or reads as nothing.
pub open spec fn unreadable(d: Option<RawDuration>) -> bool {
    d is None || far_negative(d->0) || (!normal(d->0) && span_of_wire(d->0.seconds, d->0.nanos)
        is None)
}

/// Relies on tendermint-proto's `TryFrom<Duration> for core::time::Duration`: it brings the
/// duration to normal form and fails exactly where it is then negative; a duration already
/// in normal form and not negative keeps its seconds and nanoseconds. It negates the
/// seconds of a negative duration, which overflows near `i64::MIN`; such inputs are left out.
#[verifier::external_body]
fn span_from_wire(d: RawDuration) -> (r: Option<Span>)
    requires
        !far_negative(d),
    ensures
        r matches Some(s) ==> s.wf() && (normal(d) ==> s.secs == d.seconds as u64 && s.nanos
            == d.nanos as u32) && (!normal(d) ==> span_of_wire(d.seconds, d.nanos) == Some(
            (s.secs, s.nanos),
        )),
        r is None ==> !normal(d) && span_of_wire(d.seconds, d.nanos) is None,
{
    let wire = ibc_proto::google::protobuf::Duration { seconds: d.seconds, nanos: d.nanos };
    let t: Option<core::time::Duration> = wire.try_into().ok();
    t.map(|t| Span { secs: t.as_secs(), nanos: t.subsec_nanos() })
}

/// The wire form of a span whose seconds fit the wire's signed field.
pub open spec fn wire_of(s: Span) -> RawDuration {
    RawDuration { seconds: s.secs as i64, nanos: s.nanos as i32 }
}

pub open spec fn raw_height_of(h: Height) -> RawHeight {
    RawHeight { revision_number: h.revision_number, revision_height: h.revision_height }
}

/// The spans of a client state fit the wire's signed seconds.
pub open spec fn spans_fit(s: ClientState) -> bool {
    s.trusting_period.secs <= i64::MAX as u64 && s.unbonding_period.secs <= i64::MAX as u64
        && s.max_clock_drift.secs <= i64::MAX as u64
}

/// `raw` is the wire form of `s`. An unfrozen state is written with a zero frozen height.
pub open spec fn encodes(s: ClientState, raw: RawClientState) -> bool {
    &&& raw.chain_id@ == s.chain_id.view()
    &&& raw.trust_level == Some(
        Fraction { numerator: s.trust_level.numerator, denominator: s.trust_level.denominator },
    )
    &&& raw.trusting_period == Some(wire_of(s.trusting_period))
    &&& raw.unbonding_period == Some(wire_of(s.unbonding_period))
    &&& raw.max_clock_drift == Some(wire_of(s.max_clock_drift))
    &&& raw.frozen_height == Some(
        match s.frozen_height {
            Some(h) => raw_height_of(h),
            None => RawHeight { revision_number: 0, revision_height: 0 },
        },
    )
    &&& raw.latest_height == Some(raw_height_of(s.latest_height))
    &&& raw.proof_specs == s.proof_specs
    &&& raw.upgrade_path == s.upgrade_path
    &&& raw.allow_update_after_expiry == s.allow_update.after_expiry
    &&& raw.allow_update_after_misbehaviour == s.allow_update.after_misbehaviour
}

/// The first field of a wire client state that cannot be read, in the order in which they
/// are read: chain identifier, trust level, the three durations, latest height, and last a
/// frozen height, which may only be absent or `(0, 0)`.
pub open spec fn first_decode_error(raw: RawClientState) -> Option<Error> {
    if chain_id_revision(raw.chain_id@) is None {
        Some(Error::InvalidChainId)
    } else if raw.trust_level is None {
        Some(Error::MissingTrustLevel)
    } else if !TrustThreshold::valid_fraction(
        raw.trust_level->0.numerator,
        raw.trust_level->0.denominator,
    ) {
        Some(Error::InvalidTrustThreshold)
    } else if unreadable(raw.trusting_period) {
        Some(Error::MissingTrustingPeriod)
    } else if unreadable(raw.unbonding_period) {
        Some(Error::MissingUnbondingPeriod)
    } else if unreadable(raw.max_clock_drift) {
        Some(Error::NegativeMaxClockDrift)
    } else if raw.latest_height is None || raw.latest_height->0.revision_height == 0 {
        Some(Error::MissingLatestHeight)
    } else if raw.frozen_height matches Some(h) && (h.revision_number != 0 || h.revision_height
        != 0) {
        Some(Error::FrozenHeightNotAllowed)
    } else {
        None
    }
}

/// `s` holds what the fields of `raw` read as, and is not frozen.
pub open spec fn read_from(raw: RawClientState, s: ClientState) -> bool {
    &&& s.chain_id.view() == raw.chain_id@
    &&& s.chain_id.wf()
    &&& raw.trust_level matches Some(f) && s.trust_level == (TrustThreshold {
        numerator: f.numerator,
        denominator: f.denominator,
    })
    &&& raw.trusting_period matches Some(d) && reads_as(d, s.trusting_period)
    &&& raw.unbonding_period matches Some(d) && reads_as(d, s.unbonding_period)
    &&& raw.max_clock_drift matches Some(d) && reads_as(d, s.max_clock_drift)
    &&& raw.latest_height matches Some(h) && s.latest_height == (Height {
        revision_number: h.revision_number,
        revision_height: h.revision_height,
    })
    &&& s.proof_specs == raw.proof_specs
    &&& s.upgrade_path == raw.upgrade_path
    &&& s.allow_update == (AllowUpdate {
        after_expiry: raw.allow_update_after_expiry,
        after_misbehaviour: raw.allow_update_after_misbehaviour,
    })
    &&& s.frozen_height is None
}

/// What decoding `raw` may give: the first field that cannot be read gives its error;
/// where all can be read, the state they make is checked as `ClientState::new` checks it.
pub open spec fn decodes(raw: RawClientState, r: Result<ClientState, Error>) -> bool {
    match first_decode_error(raw) {
        Some(e) => r == Err::<ClientState, Error>(e),
        None => match r {
            Ok(t) => read_from(raw, t) && t.wf(),
            Err(e) => forall|s: ClientState| #[trigger]
                read_from(raw, s) ==> s.validation() == Err::<(), Error>(e),
        },
    }
}

impl ClientState {
    /// Reads a client state from its wire form, then checks it as `new` does. A wire state
    /// that carries a non-zero frozen height is refused.
    pub fn from_raw(raw: RawClientState) -> (r: Result<ClientState, Error>)
        ensures
            decodes(raw, r),
    {
        let chain_id = match ChainId::new(raw.chain_id.as_str()) {
            Ok(c) => c,
            Err(()) => return Err(Error::InvalidChainId),
        };
        let trust_level = match raw.trust_level {
            None => return Err(Error::MissingTrustLevel),
            Some(f) => match TrustThreshold::new(f.numerator, f.denominator) {
                Ok(t) => t,
                Err(()) => return Err(Error::InvalidTrustThreshold),
            },
        };
        let trusting_period = match raw.trusting_period {
            None => return Err(Error::MissingTrustingPeriod),
            Some(d) => if d.seconds <= i64::MIN + 2 {
                return Err(Error::MissingTrustingPeriod);
            } else {
                match span_from_wire(d) {
                    Some(s) => s,
                    None => return Err(Error::MissingTrustingPeriod),
                }
            },
        };
        let unbonding_period = match raw.unbonding_period {
            None => return Err(Error::MissingUnbondingPeriod),
            Some(d) => if d.seconds <= i64::MIN + 2 {
                return Err(Error::MissingUnbondingPeriod);
            } else {
                match span_from_wire(d) {
                    Some(s) => s,
                    None => return Err(Error::MissingUnbondingPeriod),
                }
            },
        };
        let max_clock_drift = match raw.max_clock_drift {
            None => return Err(Error::NegativeMaxClockDrift),
            Some(d) => if d.seconds <= i64::MIN + 2 {
                return Err(Error::NegativeMaxClockDrift);
            } else {
                match span_from_wire(d) {
                    Some(s) => s,
                    None => return Err(Error::NegativeMaxClockDrift),
                }
            },
        };
        let latest_height = match raw.latest_height {
            None => return Err(Error::MissingLatestHeight),
            Some(h) => match Height::new(h.revision_number, h.revision_height) {
                Ok(h) => h,
                Err(()) => return Err(Error::MissingLatestHeight),
            },
        };
        if let Some(h) = raw.frozen_height {
            if h.revision_number != 0 || h.revision_height != 0 {
                return Err(Error::FrozenHeightNotAllowed);
            }
        }
        let allow_update = AllowUpdate {
            after_expiry: raw.allow_update_after_expiry,
            after_misbehaviour: raw.allow_update_after_misbehaviour,
        };
        let client_state = ClientState::new_without_validation(
            chain_id,
            trust_level,
            trusting_period,
            unbonding_period,
            max_clock_drift,
            latest_height,
            raw.proof_specs,
            raw.upgrade_path,
            allow_update,
        );
        proof {
            client_state.lemma_validation();
            assert forall|s: ClientState| #[trigger] read_from(raw, s) implies s.validation()
                == client_state.validation() by {
                lemma_read_same_validation(raw, s, client_state);
            }
        }
        match client_state.validate() {
            Ok(()) => Ok(client_state),
            Err(e) => Err(e),
        }
    }

    /// The wire form of the state; an unfrozen state gets a zero frozen height.
    pub fn to_raw(self) -> (r: RawClientState)
        requires
            spans_fit(self),
        ensures
            encodes(self, r),
    {
        let frozen_height = match self.frozen_height {
            Some(h) => RawHeight {
                revision_number: h.revision_number,
                revision_height: h.revision_height,
            },
            None => RawHeight { revision_number: 0, revision_height: 0 },
        };
        RawClientState {
            chain_id: self.chain_id.into_string(),
            trust_level: Some(
                Fraction {
                    numerator: self.trust_level.numerator,
                    denominator: self.trust_level.denominator,
                },
            ),
            trusting_period: Some(
                RawDuration {
                    seconds: self.trusting_period.secs as i64,
                    nanos: self.trusting_period.nanos as i32,
                },
            ),
            unbonding_period: Some(
                RawDuration {
                    seconds: self.unbonding_period.secs as i64,
                    nanos: self.unbonding_period.nanos as i32,
                },
            ),
            max_clock_drift: Some(
                RawDuration {
                    seconds: self.max_clock_drift.secs as i64,
                    nanos: self.max_clock_drift.nanos as i32,
                },
            ),
            frozen_height: Some(frozen_height),
            latest_height: Some(
                RawHeight {
                    revision_number: self.latest_height.revision_number,
                    revision_height: self.latest_height.revision_height,
                },
            ),
            proof_specs: self.proof_specs,
            upgrade_path: self.upgrade_path,
            allow_update_after_expiry: self.allow_update.after_expiry,
            allow_update_after_misbehaviour: self.allow_update.after_misbehaviour,
        }
    }
}

/// Two states read from the same wire form pass or fail the same checks.
proof fn lemma_read_same_validation(raw: RawClientState, s: ClientState, t: ClientState)
    requires
        read_from(raw, s),
        read_from(raw, t),
    ensures
        s.validation() == t.validation(),
{
    assert(s.chain_id.revision() == t.chain_id.revision());
    assert(s.trusting_period == t.trusting_period);
    assert(s.unbonding_period == t.unbonding_period);
    assert(s.max_clock_drift == t.max_clock_drift);
}

} // verus!
