use queries_ext::types::{
    Address, BalanceEntry, Duration, EpochDuration, EpochValidatorSet, EpochedEthAddress, EthAddrBook,
    EthAddress, Error, EvidenceParams, PosParams, PublicKey, RawHashEntry, SendValsetUpd, Storage,
    TendermintValidator, ValidatorRecord, WeightedValidator,
};

fn addr(s: &str) -> Address {
    Address { encoded: s.to_string() }
}

fn wv(stake: u64, a: &str) -> WeightedValidator {
    WeightedValidator { bonded_stake: stake, address: addr(a) }
}

fn eth(e: u64, b: u8) -> EpochedEthAddress {
    EpochedEthAddress { epoch: e, address: EthAddress([b; 20]) }
}

fn fixture() -> Storage {
    Storage {
        current_epoch: 3,
        last_height: 20,
        first_block_heights: vec![0, 10, 19],
        validator_sets: vec![
            EpochValidatorSet::new(2, vec![wv(5, "atest1alice")]).unwrap(),
            EpochValidatorSet::new(3, vec![wv(10, "atest1alice"), wv(20, "atest1bob")]).unwrap(),
        ],
        validators: vec![
            ValidatorRecord {
                address: addr("atest1alice"),
                protocol_pk: Some(vec![1, 2, 3]),
                dkg_pk: Some(vec![9, 9]),
                eth_hot_keys: vec![eth(3, 1)],
                eth_cold_keys: vec![eth(3, 2)],
            },
            ValidatorRecord {
                address: addr("atest1bob"),
                protocol_pk: Some(vec![4, 5]),
                dkg_pk: Some(vec![7]),
                eth_hot_keys: vec![eth(2, 8), eth(3, 3)],
                eth_cold_keys: vec![eth(3, 4)],
            },
        ],
        raw_hashes: vec![RawHashEntry { raw_hash: "ABCDEF".to_string(), address: addr("atest1alice") }],
        balances: vec![BalanceEntry {
            token: addr("atest1nam"),
            owner: addr("atest1alice"),
            value: vec![1, 2, 0, 0, 0, 0, 0, 0],
        }],
        max_proposal_bytes: Some(6_291_456u64.to_le_bytes().to_vec()),
    }
}

#[test]
fn active_validators_default_to_current_epoch() {
    let s = fixture();
    assert_eq!(s.get_active_validators(None), vec![wv(10, "atest1alice"), wv(20, "atest1bob")]);
    assert_eq!(s.get_active_validators(None), s.get_active_validators(Some(3)));
    assert_eq!(s.get_active_validators(Some(2)), vec![wv(5, "atest1alice")]);
}

#[test]
fn total_voting_power_sums_stakes() {
    let s = fixture();
    assert_eq!(s.get_total_voting_power(None), 30);
    assert_eq!(s.get_total_voting_power(Some(2)), 5);
}

#[test]
fn total_voting_power_bounds_each_stake() {
    let s = fixture();
    let total = s.get_total_voting_power(None);
    for v in s.get_active_validators(None) {
        assert!(v.bonded_stake <= total);
    }
}

#[test]
fn balance_is_decoded_little_endian() {
    let s = fixture();
    assert_eq!(s.get_balance(&addr("atest1nam"), &addr("atest1alice")), 513);
}

#[test]
fn missing_balance_is_zero() {
    let s = fixture();
    assert_eq!(s.get_balance(&addr("atest1nam"), &addr("atest1bob")), 0);
    assert_eq!(s.get_balance(&addr("atest1other"), &addr("atest1alice")), 0);
}

#[test]
fn evidence_params_follow_unbonding_length() {
    let s = fixture();
    let d = EpochDuration { min_num_of_blocks: 10, min_duration: 60 };
    let r = s.get_evidence_params(&d, &PosParams { unbonding_len: 21 });
    assert_eq!(
        r,
        EvidenceParams {
            max_age_num_blocks: 200,
            max_age_duration: Some(Duration { seconds: 1200, nanos: 0 }),
            max_bytes: 0,
        }
    );
}

#[test]
fn short_unbonding_keeps_no_evidence() {
    let s = fixture();
    let d = EpochDuration { min_num_of_blocks: 10, min_duration: 60 };
    for len in [0u64, 1] {
        let r = s.get_evidence_params(&d, &PosParams { unbonding_len: len });
        assert_eq!(r.max_age_num_blocks, 0);
        assert_eq!(r.max_age_duration, Some(Duration { seconds: 0, nanos: 0 }));
    }
}

#[test]
fn evidence_params_cast_wraps() {
    let s = fixture();
    let d = EpochDuration { min_num_of_blocks: u64::MAX, min_duration: 1u64 << 63 };
    let r = s.get_evidence_params(&d, &PosParams { unbonding_len: 2 });
    assert_eq!(r.max_age_num_blocks, -1);
    assert_eq!(r.max_age_duration, Some(Duration { seconds: i64::MIN, nanos: 0 }));
    let r = s.get_evidence_params(&d, &PosParams { unbonding_len: u64::MAX });
    assert_eq!(r.max_age_num_blocks, 0);
}

#[test]
fn validator_from_protocol_pk_found() {
    let s = fixture();
    let pk = PublicKey { bytes: vec![4, 5], text: "bobkey".to_string() };
    assert_eq!(
        s.get_validator_from_protocol_pk(&pk, None),
        Ok(TendermintValidator { power: 20, address: "atest1bob".to_string(), public_key: vec![7] })
    );
}

#[test]
fn validator_from_protocol_pk_missing() {
    let s = fixture();
    let pk = PublicKey { bytes: vec![4, 5], text: "bobkey".to_string() };
    assert_eq!(
        s.get_validator_from_protocol_pk(&pk, Some(2)),
        Err(Error::NotValidatorKey("bobkey".to_string(), 2))
    );
    let other = PublicKey { bytes: vec![4], text: "short".to_string() };
    assert_eq!(
        s.get_validator_from_protocol_pk(&other, None),
        Err(Error::NotValidatorKey("short".to_string(), 3))
    );
}

#[test]
fn validator_from_address_found() {
    let s = fixture();
    assert_eq!(s.get_validator_from_address(&addr("atest1alice"), None), Ok((10, vec![1, 2, 3])));
    assert_eq!(s.get_validator_from_address(&addr("atest1alice"), Some(2)), Ok((5, vec![1, 2, 3])));
}

#[test]
fn validator_from_address_missing() {
    let s = fixture();
    assert_eq!(
        s.get_validator_from_address(&addr("atest1bob"), Some(2)),
        Err(Error::NotValidatorAddress(addr("atest1bob"), 2))
    );
}

#[test]
fn key_lookup_agrees_with_address_lookup() {
    let s = fixture();
    let pk = PublicKey { bytes: vec![1, 2, 3], text: "alicekey".to_string() };
    let t = s.get_validator_from_protocol_pk(&pk, None).unwrap();
    let (stake, key) = s.get_validator_from_address(&addr(&t.address), None).unwrap();
    assert_eq!(stake, t.power);
    assert_eq!(key, pk.bytes);
}

#[test]
fn validator_from_tm_address() {
    let s = fixture();
    assert_eq!(s.get_validator_from_tm_address(b"ABCDEF", None), Ok(addr("atest1alice")));
    assert_eq!(
        s.get_validator_from_tm_address(b"XYZ", Some(7)),
        Err(Error::NotValidatorKeyHash("XYZ".to_string(), 7))
    );
    assert_eq!(s.get_validator_from_tm_address(&[0xff, 0x41], None), Err(Error::InvalidTMAddress));
}

#[test]
fn can_send_validator_set_update() {
    let mut s = fixture();
    assert!(s.can_send_validator_set_update(SendValsetUpd::AtPrevHeight));
    assert!(!s.can_send_validator_set_update(SendValsetUpd::Now));
    s.last_height = 19;
    assert!(s.can_send_validator_set_update(SendValsetUpd::Now));
}

#[test]
fn deciding_offset_in_first_epoch() {
    let mut s = fixture();
    s.current_epoch = 0;
    s.last_height = 5;
    assert!(s.is_deciding_offset_within_epoch(5));
    assert!(!s.is_deciding_offset_within_epoch(4));
    assert!(!s.is_deciding_offset_within_epoch(6));
}

#[test]
fn deciding_offset_without_first_heights() {
    let mut s = fixture();
    s.first_block_heights = vec![];
    assert!(!s.is_deciding_offset_within_epoch(0));
    assert!(!s.is_deciding_offset_within_epoch(2));
}

#[test]
fn deciding_offset_is_unique() {
    let s = fixture();
    let hits: Vec<u64> = (0..30).filter(|k| s.is_deciding_offset_within_epoch(*k)).collect();
    assert_eq!(hits, vec![2]);
}

#[test]
fn current_decision_height() {
    let s = fixture();
    assert_eq!(s.get_current_decision_height(), 21);
}

#[test]
fn eth_addresses_of_validator() {
    let s = fixture();
    assert_eq!(s.get_ethbridge_from_namada_addr(&addr("atest1bob"), None), Some(EthAddress([3; 20])));
    assert_eq!(s.get_ethbridge_from_namada_addr(&addr("atest1bob"), Some(2)), Some(EthAddress([8; 20])));
    assert_eq!(s.get_ethgov_from_namada_addr(&addr("atest1bob"), Some(2)), None);
    assert_eq!(s.get_ethgov_from_namada_addr(&addr("atest1alice"), None), Some(EthAddress([2; 20])));
    assert_eq!(s.get_ethbridge_from_namada_addr(&addr("atest1carol"), None), None);
}

#[test]
fn active_eth_addresses_follow_active_set() {
    let s = fixture();
    let r = s.get_active_eth_addresses(None);
    assert_eq!(
        r,
        vec![
            (
                EthAddrBook { hot_key_addr: EthAddress([1; 20]), cold_key_addr: EthAddress([2; 20]) },
                addr("atest1alice"),
                10
            ),
            (
                EthAddrBook { hot_key_addr: EthAddress([3; 20]), cold_key_addr: EthAddress([4; 20]) },
                addr("atest1bob"),
                20
            ),
        ]
    );
    for (book, a, _) in &r {
        assert_eq!(s.get_ethbridge_from_namada_addr(a, None), Some(book.hot_key_addr));
        assert_eq!(s.get_ethgov_from_namada_addr(a, None), Some(book.cold_key_addr));
    }
}

#[test]
fn max_proposal_bytes() {
    let s = fixture();
    assert_eq!(s.get_max_proposal_bytes(), 6_291_456);
}

#[test]
fn validator_set_accepts_sets_in_order() {
    let set = EpochValidatorSet::new(4, vec![wv(1, "a"), wv(1, "b"), wv(3, "a")]).unwrap();
    assert_eq!(set.epoch(), 4);
    assert_eq!(set.active(), &vec![wv(1, "a"), wv(1, "b"), wv(3, "a")]);
    assert!(EpochValidatorSet::new(0, vec![]).is_some());
}

#[test]
fn validator_set_refuses_disorder_and_repeats() {
    assert!(EpochValidatorSet::new(4, vec![wv(3, "a"), wv(1, "b")]).is_none());
    assert!(EpochValidatorSet::new(4, vec![wv(1, "a"), wv(2, "b"), wv(1, "a")]).is_none());
    assert!(EpochValidatorSet::new(4, vec![wv(1, "a"), wv(1, "a")]).is_none());
}

#[test]
fn active_eth_addresses_keep_set_order() {
    let s = fixture();
    let stakes: Vec<u64> = s.get_active_eth_addresses(None).iter().map(|t| t.2).collect();
    assert_eq!(stakes, vec![10, 20]);
    let names: Vec<Address> = s.get_active_eth_addresses(None).into_iter().map(|t| t.1).collect();
    let active: Vec<Address> = s.get_active_validators(None).into_iter().map(|v| v.address).collect();
    assert_eq!(names, active);
}
