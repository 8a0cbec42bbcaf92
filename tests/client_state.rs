use ibc_proto::ics23::{commitment_proof::Proof, CommitmentProof, ExistenceProof, NonExistenceProof};
use prost::Message;

use ics07_tendermint::{
    check_header_trusted_next_validator_set, cosmos_proof_specs, AllowUpdate, Any, ChainId,
    ClientState, ConsensusState, Error, Fraction, Header, Height, RawClientState, RawDuration,
    RawHeight, Span, Status, TrustThreshold,
};

#[derive(Clone)]
struct Params {
    id: ChainId,
    trust_level: TrustThreshold,
    trusting_period: Span,
    unbonding_period: Span,
    max_clock_drift: Span,
    latest_height: Height,
    proof_specs: Vec<ibc_proto::ics23::ProofSpec>,
    upgrade_path: Vec<String>,
    allow_update: AllowUpdate,
}

fn no_updates() -> AllowUpdate {
    AllowUpdate {
        after_expiry: false,
        after_misbehaviour: false,
    }
}

fn default_params(chain: &str, revision: u64) -> Params {
    Params {
        id: ChainId::new(chain).unwrap(),
        trust_level: TrustThreshold::one_third(),
        trusting_period: Span::new(64000, 0),
        unbonding_period: Span::new(128000, 0),
        max_clock_drift: Span::new(3, 0),
        latest_height: Height::new(revision, 10).expect("Never fails"),
        proof_specs: cosmos_proof_specs(),
        upgrade_path: Vec::new(),
        allow_update: no_updates(),
    }
}

fn build(p: Params) -> Result<ClientState, Error> {
    ClientState::new(
        p.id,
        p.trust_level,
        p.trusting_period,
        p.unbonding_period,
        p.max_clock_drift,
        p.latest_height,
        p.proof_specs,
        p.upgrade_path,
        p.allow_update,
    )
}

fn dummy_raw(frozen_height: RawHeight) -> RawClientState {
    RawClientState {
        chain_id: "ibc-0".to_string(),
        trust_level: Some(Fraction {
            numerator: 1,
            denominator: 3,
        }),
        trusting_period: Some(RawDuration {
            seconds: 64000,
            nanos: 0,
        }),
        unbonding_period: Some(RawDuration {
            seconds: 128000,
            nanos: 0,
        }),
        max_clock_drift: Some(RawDuration {
            seconds: 3,
            nanos: 0,
        }),
        frozen_height: Some(frozen_height),
        latest_height: Some(RawHeight {
            revision_number: 0,
            revision_height: 10,
        }),
        proof_specs: cosmos_proof_specs(),
        upgrade_path: Vec::new(),
        allow_update_after_expiry: false,
        allow_update_after_misbehaviour: false,
    }
}

fn consensus_bytes() -> Vec<u8> {
    ibc_proto::ibc::lightclients::tendermint::v1::ConsensusState {
        timestamp: Some(ibc_proto::google::protobuf::Timestamp {
            seconds: 1,
            nanos: 0,
        }),
        root: Some(ibc_core::commitment_types::proto::v1::MerkleRoot { hash: vec![1] }),
        next_validators_hash: vec![2; 32],
    }
    .encode_to_vec()
}

fn header(height: Height, trusted_hash: Vec<u8>) -> Header {
    Header {
        height,
        trusted_height: Height::new(height.revision_number(), 1).unwrap(),
        timestamp: 1_000,
        app_hash: vec![1, 2, 3],
        next_validators_hash: vec![7, 7],
        trusted_next_validator_set_hash: trusted_hash,
    }
}

#[test]
fn client_state_new() {
    let d = default_params("ibc-0", 0);
    let mut cases: Vec<(&str, Params, bool)> = Vec::new();
    cases.push(("Valid parameters", d.clone(), true));
    cases.push(("Valid (empty) upgrade-path", Params { upgrade_path: vec![], ..d.clone() }, true));
    cases.push((
        "Valid upgrade-path",
        Params {
            upgrade_path: vec!["upgrade".to_owned(), "upgradedIBCState".to_owned()],
            ..d.clone()
        },
        true,
    ));
    cases.push((
        "Valid long (50 chars) chain-id",
        Params {
            id: ChainId::new(&format!("{}-{}", "a".repeat(29), 0)).unwrap(),
            ..d.clone()
        },
        true,
    ));
    cases.push((
        "Invalid too-long (51 chars) chain-id",
        Params {
            id: ChainId::new(&format!("{}-{}", "a".repeat(30), 0)).unwrap(),
            ..d.clone()
        },
        false,
    ));
    cases.push((
        "Invalid (zero) max-clock-drift period",
        Params { max_clock_drift: Span::zero(), ..d.clone() },
        false,
    ));
    cases.push((
        "Invalid unbonding period",
        Params { unbonding_period: Span::zero(), ..d.clone() },
        false,
    ));
    cases.push((
        "Invalid (too small) trusting period",
        Params { trusting_period: Span::zero(), ..d.clone() },
        false,
    ));
    cases.push((
        "Invalid (too large) trusting period w.r.t. unbonding period",
        Params {
            trusting_period: Span::new(11, 0),
            unbonding_period: Span::new(10, 0),
            ..d.clone()
        },
        false,
    ));
    cases.push((
        "Invalid (equal) trusting period w.r.t. unbonding period",
        Params {
            trusting_period: Span::new(10, 0),
            unbonding_period: Span::new(10, 0),
            ..d.clone()
        },
        false,
    ));
    cases.push((
        "Invalid (zero) trusting trust threshold",
        Params { trust_level: TrustThreshold::zero(), ..d.clone() },
        false,
    ));
    cases.push((
        "Invalid (too small) trusting trust threshold",
        Params {
            trust_level: TrustThreshold::new(1, 4).expect("Never fails"),
            ..d.clone()
        },
        false,
    ));
    cases.push((
        "Invalid latest height revision number (doesn't match chain)",
        Params {
            latest_height: Height::new(1, 1).expect("Never fails"),
            ..d.clone()
        },
        false,
    ));
    cases.push((
        "Invalid (empty) proof specs",
        Params { proof_specs: Vec::new(), ..d },
        false,
    ));
    for (name, params, want_pass) in cases {
        let r = build(params);
        assert_eq!(want_pass, r.is_ok(), "ClientState::new() failed for test {}: {:?}", name, r.err());
    }
}

#[test]
fn client_state_verify_height() {
    let cs = build(default_params("ibc-1", 1)).expect("Never fails");
    assert!(cs.validate_proof_height(Height::new(1, 8).expect("Never fails")).is_ok());
    assert!(cs.validate_proof_height(Height::new(1, 12).expect("Never fails")).is_err());
}

#[test]
fn tm_client_state_conversions_healthy() {
    let from_raw = ClientState::from_raw(dummy_raw(RawHeight {
        revision_number: 0,
        revision_height: 0,
    }));
    assert!(from_raw.is_ok());
    let from_raw = from_raw.expect("Never fails");
    let any = from_raw.clone().to_any();
    let from_any = ClientState::from_any(any);
    assert!(from_any.is_ok());
    assert_eq!(from_raw, from_any.expect("Never fails"));

    // a state built by hand, as from a header's chain identifier and height
    let chain_id = ChainId::new("test-chain").expect("Never fails");
    let built = ClientState::new(
        chain_id.clone(),
        TrustThreshold::default(),
        Span::from_secs(64000),
        Span::from_secs(128000),
        Span::from_millis(3000),
        Height::new(chain_id.revision_number(), 5).expect("Never fails"),
        cosmos_proof_specs(),
        Vec::new(),
        no_updates(),
    )
    .expect("Never fails");
    let from_any = ClientState::from_any(built.clone().to_any());
    assert!(from_any.is_ok());
    assert_eq!(built, from_any.expect("Never fails"));
}

#[test]
fn tm_client_state_malformed_with_frozen_height() {
    let r = ClientState::from_raw(dummy_raw(RawHeight {
        revision_number: 0,
        revision_height: 10,
    }));
    match r {
        Err(Error::FrozenHeightNotAllowed) => {}
        _ => panic!("Expected to fail with FrozenHeightNotAllowed error"),
    }
}

#[test]
fn scenario_empty_proof_specs_then_default() {
    let d = default_params("ibc-0", 0);
    let mut p = d.clone();
    p.max_clock_drift = Span::from_millis(3000);
    p.proof_specs = Vec::new();
    assert_eq!(build(p.clone()).err(), Some(Error::EmptyProofSpecs));
    p.proof_specs = cosmos_proof_specs();
    assert!(build(p).is_ok());
}

#[test]
fn scenario_trusting_above_unbonding() {
    let d = default_params("ibc-0", 0);
    let bad = Params {
        trusting_period: Span::from_secs(11),
        unbonding_period: Span::from_secs(10),
        ..d.clone()
    };
    assert_eq!(build(bad).err(), Some(Error::TrustingPeriodNotBelowUnbonding));
    let good = Params {
        trusting_period: Span::from_secs(10),
        unbonding_period: Span::from_secs(11),
        ..d
    };
    assert!(build(good).is_ok());
}

#[test]
fn trusting_one_unit_below_unbonding_passes() {
    let d = default_params("ibc-0", 0);
    let p = Params {
        trusting_period: Span::new(9, 999_999_999),
        unbonding_period: Span::from_secs(10),
        ..d
    };
    assert!(build(p).is_ok());
}

#[test]
fn each_check_has_its_error() {
    let d = default_params("ibc-0", 0);
    let long = ChainId::new(&format!("{}-{}", "a".repeat(30), 0)).unwrap();
    assert_eq!(build(Params { id: long, ..d.clone() }).err(), Some(Error::InvalidChainIdLength));
    assert_eq!(
        build(Params { trust_level: TrustThreshold::zero(), ..d.clone() }).err(),
        Some(Error::ZeroTrustThreshold)
    );
    assert_eq!(
        build(Params { trust_level: TrustThreshold::new(1, 4).unwrap(), ..d.clone() }).err(),
        Some(Error::TrustThresholdRejectedByVerifier)
    );
    assert_eq!(
        build(Params { trusting_period: Span::zero(), ..d.clone() }).err(),
        Some(Error::ZeroTrustingPeriod)
    );
    assert_eq!(
        build(Params { unbonding_period: Span::zero(), ..d.clone() }).err(),
        Some(Error::ZeroUnbondingPeriod)
    );
    assert_eq!(
        build(Params { max_clock_drift: Span::zero(), ..d.clone() }).err(),
        Some(Error::ZeroMaxClockDrift)
    );
    assert_eq!(
        build(Params { latest_height: Height::new(1, 1).unwrap(), ..d.clone() }).err(),
        Some(Error::LatestHeightRevisionMismatch)
    );
    assert_eq!(
        build(Params {
            upgrade_path: vec!["upgrade".to_owned(), " \t ".to_owned(), "".to_owned()],
            ..d
        })
        .err(),
        Some(Error::BlankUpgradePathKey { index: 1 })
    );
}

#[test]
fn trust_threshold_bounds() {
    assert!(TrustThreshold::new(0, 0).is_ok());
    assert!(TrustThreshold::new(2, 3).is_ok());
    assert!(TrustThreshold::new(3, 3).is_err());
    assert!(TrustThreshold::new(4, 3).is_err());
    assert!(TrustThreshold::new(1, 0).is_err());
}

#[test]
fn chain_id_revision_numbers() {
    assert_eq!(ChainId::new("ibc-7").unwrap().revision_number(), 7);
    assert_eq!(ChainId::new("chain").unwrap().revision_number(), 0);
    assert!(ChainId::new("").is_err());
}

#[test]
fn with_header_never_lowers_height() {
    let cs = build(default_params("ibc-0", 0)).unwrap();
    let lower = cs.clone().with_header(&header(Height::new(0, 5).unwrap(), vec![])).unwrap();
    assert_eq!(lower.latest_height(), Height::new(0, 10).unwrap());
    let higher = cs.with_header(&header(Height::new(0, 12).unwrap(), vec![])).unwrap();
    assert_eq!(higher.latest_height(), Height::new(0, 12).unwrap());
}

#[test]
fn frozen_status_wins() {
    let cs = build(default_params("ibc-0", 0)).unwrap();
    let frozen = cs.update_state_on_misbehaviour();
    assert!(frozen.is_frozen());
    assert_eq!(frozen.frozen_height(), Some(Height::min(0)));
    let fresh = ConsensusState {
        root: vec![1],
        timestamp: 100,
        next_validators_hash: vec![],
    };
    assert_eq!(frozen.status(Some(&fresh), 100), Status::Frozen);
    assert_eq!(frozen.status(None, 0), Status::Frozen);
}

#[test]
fn expiry_boundary() {
    let cs = build(default_params("ibc-0", 0)).unwrap();
    let t: u64 = 1_000_000;
    let period = 64_000u64 * 1_000_000_000;
    let c = ConsensusState {
        root: vec![1],
        timestamp: t,
        next_validators_hash: vec![],
    };
    assert_eq!(cs.status(Some(&c), t + period), Status::Active);
    assert_eq!(cs.status(Some(&c), t + period + 1), Status::Expired);
    assert_eq!(cs.status(Some(&c), t - 1), Status::Active);
    assert_eq!(cs.status(None, t), Status::Expired);
}

#[test]
fn refresh_time_is_two_thirds() {
    let cs = build(default_params("ibc-0", 0)).unwrap();
    let r = cs.refresh_time().unwrap();
    assert_eq!(r.secs, 42666);
    assert_eq!(r.nanos, 666_666_666);
}

#[test]
fn update_is_idempotent() {
    let cs = build(default_params("ibc-0", 0)).unwrap();
    let h = header(Height::new(0, 11).unwrap(), vec![]);
    let (after, stored) = cs.clone().update_state(&h, None).expect("first update writes");
    assert_eq!(after.latest_height(), Height::new(0, 11).unwrap());
    assert_eq!(stored.root, vec![1, 2, 3]);
    assert_eq!(stored.next_validators_hash, vec![7, 7]);
    assert!(after.update_state(&h, Some(&stored)).is_none());
}

#[test]
fn trusted_validator_set_must_match() {
    let trusted = ConsensusState {
        root: vec![1],
        timestamp: 0,
        next_validators_hash: vec![9, 9],
    };
    assert!(check_header_trusted_next_validator_set(
        &header(Height::new(0, 2).unwrap(), vec![9, 9]),
        &trusted
    )
    .is_ok());
    assert_eq!(
        check_header_trusted_next_validator_set(&header(Height::new(0, 2).unwrap(), vec![9]), &trusted),
        Err(Error::NextValidatorSetMismatch)
    );
}

#[test]
fn consensus_state_needs_root() {
    let cs = build(default_params("ibc-0", 0)).unwrap();
    let empty = ConsensusState {
        root: vec![],
        timestamp: 0,
        next_validators_hash: vec![],
    };
    assert_eq!(cs.verify_consensus_state(&empty), Err(Error::EmptyCommitmentRoot));
}

#[test]
fn upgrade_requires_higher_height_and_path() {
    let mut p = default_params("ibc-0", 0);
    p.upgrade_path = vec!["upgrade".to_owned(), "upgradedIBCState".to_owned()];
    let cs = build(p.clone()).unwrap();
    let same = build(p.clone()).unwrap();
    assert_eq!(cs.check_upgrade(&same), Err(Error::LowUpgradeHeight));
    let mut q = default_params("ibc-1", 1);
    q.upgrade_path = p.upgrade_path.clone();
    let upgraded = build(q).unwrap();
    let (prefix, h) = cs.check_upgrade(&upgraded).unwrap();
    assert_eq!(prefix, "upgrade");
    assert_eq!(h, 10);
    let no_path = build(default_params("ibc-0", 0)).unwrap();
    assert_eq!(no_path.check_upgrade(&upgraded), Err(Error::MissingUpgradePath));
}

#[test]
fn upgrade_keeps_client_parameters() {
    let mut p = default_params("ibc-0", 0);
    p.trusting_period = Span::from_secs(1000);
    let cs = build(p).unwrap();
    let upgraded = build(default_params("ibc-1", 1)).unwrap();
    let cons = ConsensusState {
        root: vec![5],
        timestamp: 77,
        next_validators_hash: vec![3],
    };
    let (s, c) = cs.update_state_on_upgrade(upgraded, &cons).unwrap();
    assert_eq!(s.trusting_period, Span::from_secs(1000));
    assert_eq!(s.latest_height(), Height::new(1, 10).unwrap());
    assert_eq!(s.chain_id().as_str(), "ibc-1");
    assert_eq!(c.root, b"sentinel_root".to_vec());
    assert_eq!(c.timestamp, 77);
    assert_eq!(c.next_validators_hash, vec![3]);
}

#[test]
fn decode_errors_in_order() {
    let zero = RawHeight {
        revision_number: 0,
        revision_height: 0,
    };
    let mut raw = dummy_raw(zero);
    raw.trust_level = None;
    assert_eq!(ClientState::from_raw(raw).err(), Some(Error::MissingTrustLevel));
    let mut raw = dummy_raw(zero);
    raw.trusting_period = Some(RawDuration {
        seconds: -5,
        nanos: 0,
    });
    assert_eq!(ClientState::from_raw(raw).err(), Some(Error::MissingTrustingPeriod));
    let mut raw = dummy_raw(zero);
    raw.latest_height = Some(zero);
    assert_eq!(ClientState::from_raw(raw).err(), Some(Error::MissingLatestHeight));
    let mut raw = dummy_raw(zero);
    raw.proof_specs = Vec::new();
    assert_eq!(ClientState::from_raw(raw).err(), Some(Error::EmptyProofSpecs));
}

#[test]
fn wire_duration_is_normalised() {
    let mut raw = dummy_raw(RawHeight {
        revision_number: 0,
        revision_height: 0,
    });
    raw.max_clock_drift = Some(RawDuration {
        seconds: 1,
        nanos: 1_500_000_000,
    });
    let cs = ClientState::from_raw(raw).unwrap();
    assert_eq!(cs.max_clock_drift(), Span::new(2, 500_000_000));
}

#[test]
fn envelope_type_is_checked() {
    let cs = build(default_params("ibc-0", 0)).unwrap();
    let mut any = cs.to_any();
    assert_eq!(any.type_url, "/ibc.lightclients.tendermint.v1.ClientState");
    any.type_url = "/other".to_owned();
    assert_eq!(ClientState::from_any(any).err(), Some(Error::UnknownClientStateType));
    let junk = Any {
        type_url: "/ibc.lightclients.tendermint.v1.ClientState".to_owned(),
        value: vec![0xff, 0xff, 0xff],
    };
    assert_eq!(ClientState::from_any(junk).err(), Some(Error::Decode));
}

#[test]
fn light_client_options_follow_state() {
    let cs = build(default_params("ibc-0", 0)).unwrap();
    let o = cs.as_light_client_options().unwrap();
    assert_eq!(o.trust_threshold, TrustThreshold::one_third());
    assert_eq!(o.clock_drift, Span::new(3, 0));
    assert_eq!(cs.client_type(), "07-tendermint");
}

#[test]
fn membership_needs_proof_bytes() {
    let cs = build(default_params("ibc-0", 0)).unwrap();
    let root = vec![1u8; 32];
    assert_eq!(
        cs.verify_membership("ibc", &vec![], &root, "clients/x", &vec![1]),
        Err(Error::InvalidCommitmentProof)
    );
    assert_eq!(
        cs.verify_non_membership("ibc", &vec![], &root, "clients/x"),
        Err(Error::InvalidCommitmentProof)
    );
    assert_eq!(
        cs.verify_membership("ibc", &vec![0xff, 0x01], &root, "clients/x", &vec![1]),
        Err(Error::InvalidCommitmentProof)
    );
    assert_eq!(
        cs.verify_non_membership("ibc", &vec![0xff, 0x01], &root, "clients/x"),
        Err(Error::InvalidCommitmentProof)
    );
    // one empty commitment proof: it decodes, and proves nothing
    assert_eq!(
        cs.verify_membership("ibc", &vec![0x0a, 0x00], &root, "clients/x", &vec![1]),
        Err(Error::ProofVerificationFailed)
    );
    assert_eq!(
        cs.verify_non_membership("ibc", &vec![0x0a, 0x00], &root, "clients/x"),
        Err(Error::ProofVerificationFailed)
    );
}

#[test]
fn upgrade_verification_checks_envelopes_and_proofs() {
    let mut p = default_params("ibc-0", 0);
    p.upgrade_path = vec!["upgrade".to_owned(), "upgradedIBCState".to_owned()];
    let cs = build(p).unwrap();
    let upgraded = build(default_params("ibc-1", 1)).unwrap().to_any();
    let consensus = Any {
        type_url: "/ibc.lightclients.tendermint.v1.ConsensusState".to_owned(),
        value: consensus_bytes(),
    };
    let empty_consensus = Any {
        type_url: "/ibc.lightclients.tendermint.v1.ConsensusState".to_owned(),
        value: vec![],
    };
    let wrong = Any {
        type_url: "/other".to_owned(),
        value: vec![],
    };
    let root = vec![1u8; 32];
    assert_eq!(
        cs.verify_upgrade_client(&wrong, &consensus, &vec![1], &vec![1], &root),
        Err(Error::UnknownClientStateType)
    );
    assert_eq!(
        cs.verify_upgrade_client(&upgraded, &wrong, &vec![1], &vec![1], &root),
        Err(Error::UnknownConsensusStateType)
    );
    assert_eq!(
        cs.verify_upgrade_client(&upgraded, &consensus, &vec![], &vec![1], &root),
        Err(Error::InvalidCommitmentProof)
    );
    assert_eq!(
        cs.verify_upgrade_client(&upgraded, &empty_consensus, &vec![1], &vec![1], &root),
        Err(Error::Decode)
    );
    assert_eq!(
        cs.verify_upgrade_client(&upgraded, &consensus, &vec![0xff, 0x01], &vec![1], &root),
        Err(Error::InvalidCommitmentProof)
    );
    assert_eq!(
        cs.verify_upgrade_client(&upgraded, &consensus, &vec![0x0a, 0x00], &vec![1], &root),
        Err(Error::ProofVerificationFailed)
    );
    let junk = Any {
        type_url: "/ibc.lightclients.tendermint.v1.ClientState".to_owned(),
        value: vec![0xff, 0xff, 0xff],
    };
    assert_eq!(
        cs.verify_upgrade_client(&junk, &consensus, &vec![1], &vec![1], &root),
        Err(Error::Decode)
    );
    let lower = build(default_params("ibc-0", 0)).unwrap().to_any();
    assert_eq!(
        cs.verify_upgrade_client(&lower, &consensus, &vec![1], &vec![1], &root),
        Err(Error::LowUpgradeHeight)
    );
}

#[test]
fn conflicting_header_is_misbehaviour() {
    let cs = build(default_params("ibc-0", 0)).unwrap();
    let h = header(Height::new(0, 11).unwrap(), vec![]);
    let same = ConsensusState::from_header(&h);
    assert!(!cs.check_for_misbehaviour_update_client(&h, None));
    assert!(!cs.check_for_misbehaviour_update_client(&h, Some(&same)));
    let other = ConsensusState {
        root: vec![4, 4],
        ..same
    };
    assert!(cs.check_for_misbehaviour_update_client(&h, Some(&other)));
}

#[test]
fn pruning_follows_unbonding_period() {
    let cs = build(default_params("ibc-0", 0)).unwrap();
    let unbonding = 128_000u64 * 1_000_000_000;
    let c = ConsensusState {
        root: vec![1],
        timestamp: 10,
        next_validators_hash: vec![],
    };
    assert!(!cs.is_prunable(&c, 10 + unbonding));
    assert!(cs.is_prunable(&c, 11 + unbonding));
    assert!(!cs.is_prunable(&c, 5));
}

#[test]
fn unsupported_proof_specs_are_refused() {
    let spec = ibc_proto::ics23::ProofSpec {
        inner_spec: Some(ibc_proto::ics23::InnerSpec {
            child_order: vec![],
            child_size: 32,
            ..Default::default()
        }),
        ..Default::default()
    };
    let mut p = default_params("ibc-0", 0);
    p.proof_specs = vec![spec];
    let cs = build(p).unwrap();
    let root = vec![1u8; 32];
    assert_eq!(
        cs.verify_membership("ibc", &vec![0x0a, 0x00], &root, "clients/x", &vec![1]),
        Err(Error::UnsupportedProofSpecs)
    );
    assert_eq!(
        cs.verify_non_membership("ibc", &vec![0x0a, 0x00], &root, "clients/x"),
        Err(Error::UnsupportedProofSpecs)
    );
}

#[test]
fn far_negative_duration_is_refused() {
    let mut raw = dummy_raw(RawHeight {
        revision_number: 0,
        revision_height: 0,
    });
    raw.trusting_period = Some(RawDuration {
        seconds: i64::MIN,
        nanos: 0,
    });
    assert_eq!(ClientState::from_raw(raw).err(), Some(Error::MissingTrustingPeriod));
}

#[test]
fn envelope_value_is_the_encoding() {
    let cs = build(default_params("ibc-0", 0)).unwrap();
    let any = cs.clone().to_any();
    assert_eq!(any.value, cs.clone().encode_vec());
    assert!(!any.value.is_empty());
    assert_eq!(ClientState::decode_vec(&any.value), Ok(cs));
}

#[test]
fn any_nonzero_frozen_height_is_refused() {
    let r = ClientState::from_raw(dummy_raw(RawHeight {
        revision_number: 1,
        revision_height: 0,
    }));
    assert_eq!(r.err(), Some(Error::FrozenHeightNotAllowed));
}

#[test]
fn large_child_size_is_supported() {
    let spec = ibc_proto::ics23::ProofSpec {
        inner_spec: Some(ibc_proto::ics23::InnerSpec {
            child_order: vec![0, 1],
            child_size: 5000,
            ..Default::default()
        }),
        ..Default::default()
    };
    let mut p = default_params("ibc-0", 0);
    p.proof_specs = vec![spec];
    let cs = build(p).unwrap();
    assert_eq!(
        cs.verify_membership("ibc", &vec![0x0a, 0x00], &vec![1u8; 32], "clients/x", &vec![1]),
        Err(Error::ProofVerificationFailed)
    );
}

#[test]
fn empty_prefix_is_refused() {
    let cs = build(default_params("ibc-0", 0)).unwrap();
    assert_eq!(
        cs.verify_membership("", &vec![0x0a, 0x00], &vec![1u8; 32], "clients/x", &vec![1]),
        Err(Error::EmptyCommitmentPrefix)
    );
    assert_eq!(
        cs.verify_non_membership("", &vec![0x0a, 0x00], &vec![1u8; 32], "clients/x"),
        Err(Error::EmptyCommitmentPrefix)
    );
}

#[test]
fn neighbours_that_never_diverge_are_refused() {
    let leaf = ExistenceProof {
        key: vec![1],
        value: vec![1],
        ..Default::default()
    };
    let proof = ibc_core::commitment_types::proto::v1::MerkleProof {
        proofs: vec![CommitmentProof {
            proof: Some(Proof::Nonexist(NonExistenceProof {
                key: vec![2],
                left: Some(leaf.clone()),
                right: Some(ExistenceProof { key: vec![3], ..leaf }),
            })),
        }],
    }
    .encode_to_vec();
    let cs = build(default_params("ibc-0", 0)).unwrap();
    assert_eq!(
        cs.verify_non_membership("ibc", &proof, &vec![1u8; 32], "clients/x"),
        Err(Error::ProofVerificationFailed)
    );
}

#[test]
fn consensus_state_from_envelope() {
    let any = Any {
        type_url: "/ibc.lightclients.tendermint.v1.ConsensusState".to_owned(),
        value: consensus_bytes(),
    };
    let c = ConsensusState::from_any(&any).unwrap();
    assert_eq!(c.root, vec![1]);
    assert_eq!(c.timestamp, 1_000_000_000);
    assert_eq!(c.next_validators_hash, vec![2; 32]);
    let wrong = Any {
        type_url: "/other".to_owned(),
        value: consensus_bytes(),
    };
    assert_eq!(ConsensusState::from_any(&wrong).err(), Some(Error::UnknownConsensusStateType));
    let bad_hash = ibc_proto::ibc::lightclients::tendermint::v1::ConsensusState {
        timestamp: Some(ibc_proto::google::protobuf::Timestamp { seconds: 1, nanos: 0 }),
        root: Some(ibc_core::commitment_types::proto::v1::MerkleRoot { hash: vec![1] }),
        next_validators_hash: vec![2; 5],
    };
    let mut any2 = any.clone();
    any2.value = bad_hash.encode_to_vec();
    assert_eq!(ConsensusState::from_any(&any2).err(), Some(Error::InvalidNextValidatorsHash));
    let bad_time = ibc_proto::ibc::lightclients::tendermint::v1::ConsensusState {
        timestamp: Some(ibc_proto::google::protobuf::Timestamp { seconds: -1, nanos: 0 }),
        root: Some(ibc_core::commitment_types::proto::v1::MerkleRoot { hash: vec![1] }),
        next_validators_hash: vec![],
    };
    any2.value = bad_time.encode_to_vec();
    assert_eq!(ConsensusState::from_any(&any2).err(), Some(Error::InvalidTimestamp));
    any2.value = vec![];
    assert_eq!(ConsensusState::from_any(&any2).err(), Some(Error::Decode));
}

#[test]
fn prune_takes_only_an_expired_oldest() {
    let cs = build(default_params("ibc-0", 0)).unwrap();
    let unbonding = 128_000u64 * 1_000_000_000;
    let c = ConsensusState {
        root: vec![1],
        timestamp: 10,
        next_validators_hash: vec![],
    };
    let h = Height::new(0, 3).unwrap();
    assert_eq!(cs.prune_oldest(Some((h, &c)), 11 + unbonding), Some(h));
    assert_eq!(cs.prune_oldest(Some((h, &c)), 10 + unbonding), None);
    assert_eq!(cs.prune_oldest(None, 11 + unbonding), None);
}

#[test]
fn unicode_blank_key_and_huge_threshold() {
    let d = default_params("ibc-0", 0);
    assert_eq!(
        build(Params { upgrade_path: vec!["\u{3000}\u{85}".to_owned()], ..d.clone() }).err(),
        Some(Error::BlankUpgradePathKey { index: 0 })
    );
    assert_eq!(
        build(Params {
            trust_level: TrustThreshold::new(u64::MAX - 1, u64::MAX).unwrap(),
            ..d
        })
        .err(),
        Some(Error::TrustThresholdRejectedByVerifier)
    );
}
