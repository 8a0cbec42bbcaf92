//! A light client state for a Tendermint-style BFT chain: its validated
//! configuration, its status rules, the decisions taken on header updates,
//! misbehaviour and chain upgrades, and the checks of Merkle proofs against
//! its proof specifications.

pub mod bytes;
pub mod chain_id;
pub mod client_state;
pub mod consensus;
pub mod engine;
pub mod error;
pub mod height;
pub mod laws;
pub mod membership;
pub mod proof_spec;
pub mod raw;
pub mod span;
pub mod trust_threshold;
pub mod whitespace;
pub mod wire;

pub use chain_id::ChainId;
pub use client_state::{AllowUpdate, ClientState, LightClientOptions};
pub use consensus::{ConsensusState, Header};
pub use engine::{check_header_trusted_next_validator_set, Status};
pub use error::Error;
pub use height::Height;
pub use proof_spec::cosmos_proof_specs;
pub use raw::{Fraction, RawClientState, RawDuration, RawHeight};
pub use span::Span;
pub use trust_threshold::TrustThreshold;
pub use wire::Any;
