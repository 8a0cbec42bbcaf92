use vstd::prelude::*;

use crate::client_state::ClientState;
use crate::consensus::ConsensusState;
use crate::error::Error;
use crate::raw::{decodes, encodes, spans_fit, Fraction, RawClientState, RawDuration, RawHeight};

use ibc_proto::google::protobuf;
use ibc_core::client::types::proto::v1::Height as WireHeight;
use ibc_proto::ibc::lightclients::tendermint::v1::ClientState as ProtoClientState;
use ibc_proto::ibc::lightclients::tendermint::v1::ConsensusState as ProtoConsensusState;
use ibc_proto::ibc::lightclients::tendermint::v1::Fraction as WireFraction;
use prost::Message;

verus! {

/// The type identifier under which a consensus state travels in an envelope.
pub open spec fn consensus_type_url() -> Seq<char> {
    "/ibc.lightclients.tendermint.v1.ConsensusState"@
}

/// The type identifier under which a client state travels in an envelope.
pub open spec fn client_state_type_url() -> Seq<char> {
    "/ibc.lightclients.tendermint.v1.ClientState"@
}

/// A typed envelope: a type identifier and the encoded message it names.
#[derive(Clone, Debug, PartialEq, Eq)]
pub struct Any {
    pub type_url: String,
    pub value: Vec<u8>,
}

/// The binary encoding of a wire client state.
pub uninterp spec fn wire_bytes(raw: RawClientState) -> Seq<u8>;

/// The wire client state that bytes decode to, or `None` where they are no such message.
pub uninterp spec fn wire_client_state(bytes: Seq<u8>) -> Option<RawClientState>;

/// The wire consensus state that bytes decode to, or `None` where they are no such message.
pub uninterp spec fn wire_consensus_state(bytes: Seq<u8>) -> Option<RawConsensusState>;

/// A consensus state as the wire carries it; the timestamp is seconds and nanoseconds.
#[derive(Clone, Debug, PartialEq, Eq)]
pub struct RawConsensusState {
    pub timestamp: Option<(i64, i32)>,
    pub root: Option<Vec<u8>>,
    pub next_validators_hash: Vec<u8>,
}

/// A wire timestamp that this client can hold: from the Unix epoch on, nanoseconds below
/// one second, and the whole in nanoseconds within `u64`.
pub open spec fn timestamp_ok(seconds: i64, nanos: i32) -> bool {
    seconds >= 0 && 0 <= nanos < 1_000_000_000 && seconds * 1_000_000_000 + nanos <= u64::MAX
}

/// A next-validators hash that tendermint reads as a SHA-256 hash or as none.
pub open spec fn hash_ok(h: Seq<u8>) -> bool {
    h.len() == 0 || h.len() == 32
}

/// The first part of a wire consensus state that cannot be read: a missing root or
/// timestamp, a timestamp out of range, or a hash of the wrong length.
pub open spec fn consensus_error(raw: RawConsensusState) -> Option<Error> {
    if raw.root is None || raw.timestamp is None {
        Some(Error::Decode)
    } else if !(raw.timestamp matches Some(t) && timestamp_ok(t.0, t.1)) {
        Some(Error::InvalidTimestamp)
    } else if !hash_ok(raw.next_validators_hash@) {
        Some(Error::InvalidNextValidatorsHash)
    } else {
        None
    }
}

/// `c` holds what a readable wire consensus state reads as.
pub open spec fn consensus_reads_as(raw: RawConsensusState, c: ConsensusState) -> bool {
    &&& raw.root matches Some(root) && c.root@ == root@
    &&& raw.timestamp matches Some(t) && c.timestamp == t.0 * 1_000_000_000 + t.1
    &&& c.next_validators_hash@ == raw.next_validators_hash@
}

/// Bytes that decode to a readable consensus state.
pub open spec fn consensus_decodes(bytes: Seq<u8>) -> bool {
    wire_consensus_state(bytes) matches Some(raw) && consensus_error(raw) is None
}

/// Relies on prost's `Message::encode_to_vec` for ibc-proto's tendermint `ClientState`,
/// which writes the fields moved over one for one; the bytes depend on the fields alone.
#[verifier::external_body]
fn encode_raw(raw: RawClientState) -> (r: Vec<u8>)
    ensures
        r@ == wire_bytes(raw),
{
    let dur = |d: RawDuration| protobuf::Duration { seconds: d.seconds, nanos: d.nanos };
    let hgt = |h: RawHeight| WireHeight { revision_number: h.revision_number, revision_height: h.revision_height };
    #[allow(deprecated)]
    let msg = ProtoClientState { chain_id: raw.chain_id, trust_level: raw.trust_level.map(|f| WireFraction { numerator: f.numerator, denominator: f.denominator }), trusting_period: raw.trusting_period.map(dur), unbonding_period: raw.unbonding_period.map(dur), max_clock_drift: raw.max_clock_drift.map(dur), frozen_height: raw.frozen_height.map(hgt), latest_height: raw.latest_height.map(hgt), proof_specs: raw.proof_specs, upgrade_path: raw.upgrade_path, allow_update_after_expiry: raw.allow_update_after_expiry, allow_update_after_misbehaviour: raw.allow_update_after_misbehaviour };
    msg.encode_to_vec()
}

/// Relies on prost's `Message::decode` for ibc-proto's tendermint `ClientState`; it fails
/// on bytes that are no such message. The fields are moved over one for one.
#[verifier::external_body]
fn decode_raw(bytes: &[u8]) -> (r: Option<RawClientState>)
    ensures
        r == wire_client_state(bytes@),
{
    let dur = |d: protobuf::Duration| RawDuration { seconds: d.seconds, nanos: d.nanos };
    let hgt = |h: WireHeight| RawHeight { revision_number: h.revision_number, revision_height: h.revision_height };
    #[allow(deprecated)]
    ProtoClientState::decode(bytes).ok().map(|m| RawClientState { chain_id: m.chain_id, trust_level: m.trust_level.map(|f| Fraction { numerator: f.numerator, denominator: f.denominator }), trusting_period: m.trusting_period.map(dur), unbonding_period: m.unbonding_period.map(dur), max_clock_drift: m.max_clock_drift.map(dur), frozen_height: m.frozen_height.map(hgt), latest_height: m.latest_height.map(hgt), proof_specs: m.proof_specs, upgrade_path: m.upgrade_path, allow_update_after_expiry: m.allow_update_after_expiry, allow_update_after_misbehaviour: m.allow_update_after_misbehaviour })
}

/// Relies on prost's `Message::decode` for ibc-proto's tendermint `ConsensusState`; it fails
/// on bytes that are no such message. The fields are moved over one for one.
#[verifier::external_body]
fn decode_consensus_raw(bytes: &[u8]) -> (r: Option<RawConsensusState>)
    ensures
        r == wire_consensus_state(bytes@),
{
    ProtoConsensusState::decode(bytes).ok().map(|m| RawConsensusState { timestamp: m.timestamp.map(|t| (t.seconds, t.nanos)), root: m.root.map(|r| r.hash), next_validators_hash: m.next_validators_hash })
}

impl ConsensusState {
    /// Reads a consensus state from an envelope: an envelope of another type gives
    /// `UnknownConsensusStateType`, bytes that are no such message `Decode`, and a message
    /// that cannot be read the error of its first unreadable part.
    pub fn from_any(any: &Any) -> (r: Result<ConsensusState, Error>)
        ensures
            any.type_url@ != consensus_type_url() ==> r == Err::<ConsensusState, Error>(
                Error::UnknownConsensusStateType,
            ),
            any.type_url@ == consensus_type_url() && wire_consensus_state(any.value@) is None ==> r
                == Err::<ConsensusState, Error>(Error::Decode),
            any.type_url@ == consensus_type_url() ==> (wire_consensus_state(any.value@) matches Some(
                raw,
            ) ==> match consensus_error(raw) {
                Some(e) => r == Err::<ConsensusState, Error>(e),
                None => r matches Ok(c) && consensus_reads_as(raw, c),
            }),
            r is Ok <==> any.type_url@ == consensus_type_url() && consensus_decodes(any.value@),
    {
        let url = "/ibc.lightclients.tendermint.v1.ConsensusState".to_owned();
        proof {
            reveal_strlit("/ibc.lightclients.tendermint.v1.ConsensusState");
        }
        if any.type_url != url {
            return Err(Error::UnknownConsensusStateType);
        }
        let raw = match decode_consensus_raw(any.value.as_slice()) {
            None => return Err(Error::Decode),
            Some(raw) => raw,
        };
        let root = match raw.root {
            None => return Err(Error::Decode),
            Some(root) => root,
        };
        let (seconds, nanos) = match raw.timestamp {
            None => return Err(Error::Decode),
            Some(t) => t,
        };
        if seconds < 0 || nanos < 0 || nanos >= 1_000_000_000 {
            return Err(Error::InvalidTimestamp);
        }
        let total: u128 = seconds as u128 * 1_000_000_000 + nanos as u128;
        if total > u64::MAX as u128 {
            return Err(Error::InvalidTimestamp);
        }
        let n: usize = raw.next_validators_hash.len();
        if n != 0 && n != 32 {
            return Err(Error::InvalidNextValidatorsHash);
        }
        Ok(ConsensusState {
            root,
            timestamp: total as u64,
            next_validators_hash: raw.next_validators_hash,
        })
    }
}

impl ClientState {
    /// The state's binary encoding: the encoding of its wire form.
    pub fn encode_vec(self) -> (r: Vec<u8>)
        requires
            spans_fit(self),
        ensures
            exists|raw: RawClientState| encodes(self, raw) && r@ == wire_bytes(raw),
    {
        let raw = self.to_raw();
        let ghost g = raw;
        let r = encode_raw(raw);
        assert(encodes(self, g) && r@ == wire_bytes(g));
        r
    }

    /// Reads a state from its binary encoding: bytes that are no encoded client state give
    /// `Decode`; else the decoded wire form is read as `from_raw` reads it.
    pub fn decode_vec(bytes: &[u8]) -> (r: Result<ClientState, Error>)
        ensures
            wire_client_state(bytes@) is None ==> r == Err::<ClientState, Error>(Error::Decode),
            wire_client_state(bytes@) matches Some(raw) ==> decodes(raw, r),
    {
        match decode_raw(bytes) {
            None => Err(Error::Decode),
            Some(raw) => ClientState::from_raw(raw),
        }
    }

    /// The state in its envelope: this client's type identifier and the state's encoding.
    pub fn to_any(self) -> (r: Any)
        requires
            spans_fit(self),
        ensures
            r.type_url@ == client_state_type_url(),
            exists|raw: RawClientState| encodes(self, raw) && r.value@ == wire_bytes(raw),
    {
        proof {
            reveal_strlit("/ibc.lightclients.tendermint.v1.ClientState");
        }
        Any {
            type_url: "/ibc.lightclients.tendermint.v1.ClientState".to_owned(),
            value: self.encode_vec(),
        }
    }

    /// Reads a state from an envelope; an envelope of another type gives
    /// `UnknownClientStateType`, bytes that are no encoded client state give `Decode`.
    pub fn from_any(any: Any) -> (r: Result<ClientState, Error>)
        ensures
            any.type_url@ != client_state_type_url() ==> r == Err::<ClientState, Error>(
                Error::UnknownClientStateType,
            ),
            any.type_url@ == client_state_type_url() && wire_client_state(any.value@) is None ==> r
                == Err::<ClientState, Error>(Error::Decode),
            any.type_url@ == client_state_type_url() ==> (wire_client_state(any.value@) matches Some(
                raw,
            ) ==> decodes(raw, r)),
    {
        let url = "/ibc.lightclients.tendermint.v1.ClientState".to_owned();
        proof {
            reveal_strlit("/ibc.lightclients.tendermint.v1.ClientState");
        }
        if any.type_url != url {
            return Err(Error::UnknownClientStateType);
        }
        ClientState::decode_vec(any.value.as_slice())
    }
}

} // verus!
