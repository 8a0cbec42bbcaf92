use vstd::prelude::*;

use crate::height::Height;

verus! {

/// A snapshot of the counterparty chain at one height: its commitment root, its block
/// time in nanoseconds since the Unix epoch, and the hash of its next validator set.
#[derive(Clone, Debug, PartialEq, Eq)]
pub struct ConsensusState {
    pub root: Vec<u8>,
    pub timestamp: u64,
    pub next_validators_hash: Vec<u8>,
}

/// What the update rules read of a header that the header verifier has checked: its
/// height and block data, the height it is trusted from, and the hash of the validator
/// set that the relayer supplied as trusted.
#[derive(Clone, Debug, PartialEq, Eq)]
pub struct Header {
    pub height: Height,
    pub trusted_height: Height,
    pub timestamp: u64,
    pub app_hash: Vec<u8>,
    pub next_validators_hash: Vec<u8>,
    pub trusted_next_validator_set_hash: Vec<u8>,
}

} // verus!
