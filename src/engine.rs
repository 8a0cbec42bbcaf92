use vstd::prelude::*;

use crate::bytes::{bytes_eq, copy_bytes};
use crate::client_state::ClientState;
use crate::consensus::{ConsensusState, Header};
use crate::error::Error;
use crate::height::{height_lt, height_max, Height};

verus! {

/// Where a client stands: trusted, too old to trust, or stopped for good.
#[derive(Clone, Copy, Debug, PartialEq, Eq, Structural)]
pub enum Status {
    Active,
    Expired,
    Frozen,
}

/// The status of a client: frozen where it carries a frozen mark; else expired where the
/// consensus state at its latest height is gone, or where more than the trusting period
/// (in nanoseconds) has passed since that state's time; else active. A consensus state
/// dated after the host's time counts as fresh.
pub open spec fn status_of(
    frozen: bool,
    latest_consensus_time: Option<u64>,
    host_time: u64,
    trusting_period: int,
) -> Status {
    if frozen {
        Status::Frozen
    } else {
        match latest_consensus_time {
            None => Status::Expired,
            Some(t) => if host_time >= t && host_time - t > trusting_period {
                Status::Expired
            } else {
                Status::Active
            },
        }
    }
}

/// More than the unbonding period (in nanoseconds) has passed since the consensus state's
/// time.
pub open spec fn prunable(s: ClientState, c: ConsensusState, host_time: u64) -> bool {
    host_time >= c.timestamp && host_time - c.timestamp > s.unbonding_period.total()
}

/// The consensus state that a header yields.
pub open spec fn consensus_of(h: Header) -> ConsensusState {
    ConsensusState {
        root: h.app_hash,
        timestamp: h.timestamp,
        next_validators_hash: h.next_validators_hash,
    }
}

/// The same consensus state, as byte strings: what a store that holds it returns.
pub open spec fn same_consensus(a: ConsensusState, b: ConsensusState) -> bool {
    a.root@ == b.root@ && a.timestamp == b.timestamp && a.next_validators_hash@
        == b.next_validators_hash@
}

/// The root that marks a consensus state made by an upgrade: no proof verifies against it.
pub open spec fn sentinel_root() -> Seq<u8> {
    seq![115u8, 101, 110, 116, 105, 110, 101, 108, 95, 114, 111, 111, 116]
}

impl ConsensusState {
    /// The consensus state that a header yields.
    pub fn from_header(h: &Header) -> (r: ConsensusState)
        ensures
            same_consensus(r, consensus_of(*h)),
    {
        ConsensusState {
            root: copy_bytes(&h.app_hash),
            timestamp: h.timestamp,
            next_validators_hash: copy_bytes(&h.next_validators_hash),
        }
    }
}

impl ClientState {
    /// Accepts a consensus state as evidence only where its commitment root is not empty.
    pub fn verify_consensus_state(&self, consensus_state: &ConsensusState) -> (r: Result<
        (),
        Error,
    >)
        ensures
            r is Ok <==> consensus_state.root@.len() > 0,
            r matches Err(e) ==> e == Error::EmptyCommitmentRoot,
    {
        if consensus_state.root.len() == 0 {
            return Err(Error::EmptyCommitmentRoot);
        }
        Ok(())
    }

    /// The client's status, given the consensus state stored at its latest height (if any)
    /// and the host's time in nanoseconds.
    pub fn status(&self, latest_consensus_state: Option<&ConsensusState>, host_time: u64) -> (r:
        Status)
        requires
            self.trusting_period.wf(),
        ensures
            r == status_of(
                self.frozen_height is Some,
                match latest_consensus_state {
                    Some(c) => Some(c.timestamp),
                    None => None,
                },
                host_time,
                self.trusting_period.total(),
            ),
    {
        if self.is_frozen() {
            return Status::Frozen;
        }
        match latest_consensus_state {
            None => Status::Expired,
            Some(c) => {
                if host_time >= c.timestamp {
                    let elapsed: u64 = host_time - c.timestamp;
                    if elapsed as u128 > self.trusting_period.as_nanos() {
                        return Status::Expired;
                    }
                }
                Status::Active
            },
        }
    }

    /// What an accepted header changes: nothing where a consensus state is already stored at
    /// its height; else the state advanced to it and the consensus state it yields, to be
    /// stored at the header's height.
    pub fn update_state(self, header: &Header, existing: Option<&ConsensusState>) -> (r: Option<
        (ClientState, ConsensusState),
    >)
        ensures
            existing is Some ==> r is None,
            existing is None ==> (r matches Some((s, c)) && s == (ClientState {
                latest_height: height_max(header.height, self.latest_height),
                ..self
            }) && same_consensus(c, consensus_of(*header))),
    {
        if existing.is_some() {
            return None;
        }
        let consensus_state = ConsensusState::from_header(header);
        match self.with_header(header) {
            Ok(s) => Some((s, consensus_state)),
            Err(_) => None,
        }
    }

    /// The state frozen after misbehaviour, with the lowest height of revision zero as its
    /// mark.
    pub fn update_state_on_misbehaviour(self) -> (r: ClientState)
        ensures
            r == (ClientState {
                frozen_height: Some(Height { revision_number: 0, revision_height: 1 }),
                ..self
            }),
    {
        self.with_frozen_height(Height::min(0))
    }

    /// The checks on an upgraded client state that come before its proofs: its latest
    /// height must be above this one's, and the upgrade path must hold a prefix key before
    /// its last key. Returns the prefix key and the height whose upgrade entries the proofs
    /// speak of.
    pub fn check_upgrade(&self, upgraded: &ClientState) -> (r: Result<(String, u64), Error>)
        ensures
            !height_lt(self.latest_height, upgraded.latest_height) ==> r == Err::<(String, u64), Error>(
                Error::LowUpgradeHeight,
            ),
            height_lt(self.latest_height, upgraded.latest_height) ==> {
                &&& self.upgrade_path@.len() == 0 ==> r == Err::<(String, u64), Error>(
                    Error::MissingUpgradePath,
                )
                &&& self.upgrade_path@.len() == 1 ==> r == Err::<(String, u64), Error>(
                    Error::EmptyCommitmentPrefix,
                )
                &&& self.upgrade_path@.len() >= 2 && self.upgrade_path@[0]@.len() == 0 ==> r
                    == Err::<(String, u64), Error>(Error::EmptyCommitmentPrefix)
                &&& self.upgrade_path@.len() >= 2 && self.upgrade_path@[0]@.len() > 0 ==> (r matches Ok(
                    (prefix, h),
                ) && prefix@ == self.upgrade_path@[0]@ && h == self.latest_height.blk())
            },
    {
        if !self.latest_height.lt(&upgraded.latest_height) {
            return Err(Error::LowUpgradeHeight);
        }
        if self.upgrade_path.len() == 0 {
            return Err(Error::MissingUpgradePath);
        }
        if self.upgrade_path.len() == 1 {
            return Err(Error::EmptyCommitmentPrefix);
        }
        let prefix = self.upgrade_path[0].clone();
        if prefix.as_str().is_empty() {
            return Err(Error::EmptyCommitmentPrefix);
        }
        Ok((prefix, self.latest_height.revision_height()))
    }
    /// The client state and sentinel consensus state that an upgrade installs. The
    /// chain's parameters (identifier, unbonding period, latest height, proof
    /// specifications, upgrade path) come from the upgraded state; the client's own
    /// (trust level, trusting period, clock drift, update flags) from this one. The
    /// result is validated as `new` does.
    pub fn update_state_on_upgrade(
        &self,
        upgraded_client_state: ClientState,
        upgraded_consensus_state: &ConsensusState,
    ) -> (r: Result<(ClientState, ConsensusState), Error>)
        requires
            self.parts_wf(),
            upgraded_client_state.parts_wf(),
        ensures
            forall|s: ClientState|
                ClientState::assembled(
                    upgraded_client_state.chain_id,
                    self.trust_level,
                    self.trusting_period,
                    upgraded_client_state.unbonding_period,
                    self.max_clock_drift,
                    upgraded_client_state.latest_height,
                    upgraded_client_state.proof_specs,
                    upgraded_client_state.upgrade_path,
                    self.allow_update,
                    s,
                ) ==> (match r {
                    Ok((t, c)) => t == s && s.validation() is Ok && c.root@ == sentinel_root()
                        && c.timestamp == upgraded_consensus_state.timestamp
                        && c.next_validators_hash@
                        == upgraded_consensus_state.next_validators_hash@,
                    Err(e) => s.validation() == Err::<(), Error>(e),
                }),
    {
        let mut upgraded = upgraded_client_state;
        upgraded.zero_custom_fields();
        let new_client_state = ClientState::new(
            upgraded.chain_id,
            self.trust_level,
            self.trusting_period,
            upgraded.unbonding_period,
            self.max_clock_drift,
            upgraded.latest_height,
            upgraded.proof_specs,
            upgraded.upgrade_path,
            self.allow_update,
        );
        match new_client_state {
            Err(e) => Err(e),
            Ok(client_state) => {
                let root: Vec<u8> = vec![115u8, 101, 110, 116, 105, 110, 101, 108, 95, 114, 111, 111, 116];
                assert(root@ =~= sentinel_root());
                let consensus_state = ConsensusState {
                    root,
                    timestamp: upgraded_consensus_state.timestamp,
                    next_validators_hash: copy_bytes(&upgraded_consensus_state.next_validators_hash),
                };
                Ok((client_state, consensus_state))
            },
        }
    }
}

impl ClientState {
    /// Whether an update header conflicts with what is already stored: a consensus state
    /// at its height that differs from the one the header yields is evidence of
    /// misbehaviour.
    pub fn check_for_misbehaviour_update_client(
        &self,
        header: &Header,
        existing: Option<&ConsensusState>,
    ) -> (r: bool)
        ensures
            r == (existing matches Some(c) && !same_consensus(*c, consensus_of(*header))),
    {
        match existing {
            None => false,
            Some(c) => !(bytes_eq(&c.root, &header.app_hash) && c.timestamp == header.timestamp
                && bytes_eq(&c.next_validators_hash, &header.next_validators_hash)),
        }
    }

    /// Whether a stored consensus state may be pruned at the host's time: more than the
    /// unbonding period (in nanoseconds) has passed since its time.
    pub fn is_prunable(&self, consensus_state: &ConsensusState, host_time: u64) -> (r: bool)
        ensures
            r == prunable(*self, *consensus_state, host_time),
    {
        if host_time < consensus_state.timestamp {
            return false;
        }
        let elapsed: u64 = host_time - consensus_state.timestamp;
        elapsed as u128 > self.unbonding_period.as_nanos()
    }

    /// The one consensus state that an update prunes, if any: the oldest stored one (given
    /// with its height), and only where it is prunable at the host's time. An update
    /// prunes at most this one, before it looks for a consensus state at the header's
    /// height.
    pub fn prune_oldest(&self, oldest: Option<(Height, &ConsensusState)>, host_time: u64) -> (r:
        Option<Height>)
        ensures
            r == (match oldest {
                Some((h, c)) => if prunable(*self, *c, host_time) {
                    Some(h)
                } else {
                    None
                },
                None => None,
            }),
    {
        match oldest {
            Some((h, c)) => if self.is_prunable(c, host_time) {
                Some(h)
            } else {
                None
            },
            None => None,
        }
    }
}

/// Accepts the validator set that a relayer supplied as trusted only where its hash is the
/// one stored with the trusted consensus state.
pub fn check_header_trusted_next_validator_set(
    header: &Header,
    trusted_consensus_state: &ConsensusState,
) -> (r: Result<(), Error>)
    ensures
        r is Ok <==> header.trusted_next_validator_set_hash@
            == trusted_consensus_state.next_validators_hash@,
        r matches Err(e) ==> e == Error::NextValidatorSetMismatch,
{
    if bytes_eq(&header.trusted_next_validator_set_hash, &trusted_consensus_state.next_validators_hash) {
        Ok(())
    } else {
        Err(Error::NextValidatorSetMismatch)
    }
}

} // verus!
