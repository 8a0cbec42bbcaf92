use vstd::prelude::*;

verus! {

/// What can go wrong in building, decoding or advancing a client state.
#[derive(Clone, Copy, Debug, PartialEq, Eq, Structural)]
pub enum Error {
    /// The chain identifier is not accepted as one.
    InvalidChainId,
    /// The chain identifier is shorter or longer than allowed.
    InvalidChainIdLength,
    /// The trust threshold is the zero value.
    ZeroTrustThreshold,
    /// The trust threshold is a fraction that is not below one.
    InvalidTrustThreshold,
    /// The header verifier does not accept the trust threshold as its own.
    TrustThresholdRejectedByVerifier,
    ZeroTrustingPeriod,
    ZeroUnbondingPeriod,
    /// The trusting period is not strictly below the unbonding period.
    TrustingPeriodNotBelowUnbonding,
    ZeroMaxClockDrift,
    /// The latest height's revision differs from the chain identifier's.
    LatestHeightRevisionMismatch,
    EmptyProofSpecs,
    /// The upgrade-path key at this index is blank.
    BlankUpgradePathKey { index: usize },
    MissingTrustLevel,
    MissingTrustingPeriod,
    MissingUnbondingPeriod,
    /// The clock drift is missing or negative.
    NegativeMaxClockDrift,
    /// The latest height is missing or zero.
    MissingLatestHeight,
    /// A client state may not be decoded already frozen.
    FrozenHeightNotAllowed,
    /// The bytes are no encoded client state.
    Decode,
    /// The envelope's type identifier is not that of this client state.
    UnknownClientStateType,
    /// A consensus state with an empty commitment root.
    EmptyCommitmentRoot,
    /// A proof height above the client's latest height.
    InvalidProofHeight,
    /// The header's trusted validator set is not the one stored on chain.
    NextValidatorSetMismatch,
    /// The upgraded height is not above the current latest height.
    LowUpgradeHeight,
    /// No upgrade path has been set.
    MissingUpgradePath,
    /// The upgrade path gives an empty commitment prefix.
    EmptyCommitmentPrefix,
    /// The envelope's type identifier is not that of this client's consensus state.
    UnknownConsensusStateType,
    /// The proof bytes are empty.
    InvalidCommitmentProof,
    /// The proof does not show what it is claimed to show.
    ProofVerificationFailed,
    /// The client's proof specifications have shapes that the proof verifier cannot
    /// safely evaluate.
    UnsupportedProofSpecs,
    /// No consensus state is stored at the requested height.
    ConsensusStateNotFound,
    /// A consensus state's timestamp is not a time from the Unix epoch on, in nanoseconds
    /// that fit a `u64`.
    InvalidTimestamp,
    /// A next-validators hash that is neither empty nor 32 bytes long.
    InvalidNextValidatorsHash,
}

} // verus!
