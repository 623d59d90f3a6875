use block_metadata_sink::row::BlockReplicaEvent;
use block_metadata_sink::row::DbBlockInfo;
use block_metadata_sink::row::DbReward;
use block_metadata_sink::row::RewardEntry;
use block_metadata_sink::row::RewardKind;
use block_metadata_sink::row::reward_kind_label;

fn entry(pubkey: &str, lamports: i64, kind: Option<RewardKind>) -> RewardEntry {
    RewardEntry {
        pubkey: pubkey.to_string(),
        lamports,
        post_balance: 1_000,
        reward_kind: kind,
        commission: None,
    }
}

#[test]
fn converts_example_event() {
    let ev = BlockReplicaEvent {
        slot: 12345,
        blockhash: "abc123".to_string(),
        rewards: Vec::new(),
        block_time: None,
        block_height: Some(67890),
    };
    let row = DbBlockInfo::from_event(&ev);
    assert_eq!(row.slot, 12345);
    assert_eq!(row.blockhash, "abc123");
    assert!(row.rewards.is_empty());
    assert_eq!(row.block_time, None);
    assert_eq!(row.block_height, Some(67890));
}

#[test]
fn preserves_reward_order_and_count() {
    let ev = BlockReplicaEvent {
        slot: 7,
        blockhash: "h".to_string(),
        rewards: vec![
            entry("alpha", 10, Some(RewardKind::Fee)),
            entry("beta", -5, Some(RewardKind::Rent)),
            entry("gamma", 0, None),
        ],
        block_time: Some(1_640_995_200),
        block_height: Some(3),
    };
    let row = DbBlockInfo::from_event(&ev);
    assert_eq!(row.rewards.len(), 3);
    assert_eq!(row.rewards[0].pubkey, "alpha");
    assert_eq!(row.rewards[1].pubkey, "beta");
    assert_eq!(row.rewards[2].pubkey, "gamma");
    assert_eq!(row.rewards[0].lamports, 10);
    assert_eq!(row.rewards[1].lamports, -5);
    assert_eq!(row.rewards[2].lamports, 0);
}

#[test]
fn optional_fields_pass_through() {
    let absent = BlockReplicaEvent {
        slot: 1,
        blockhash: "x".to_string(),
        rewards: Vec::new(),
        block_time: None,
        block_height: None,
    };
    let row = DbBlockInfo::from_event(&absent);
    assert_eq!(row.block_time, None);
    assert_eq!(row.block_height, None);

    let present = BlockReplicaEvent {
        slot: 1,
        blockhash: "x".to_string(),
        rewards: Vec::new(),
        block_time: Some(-42),
        block_height: Some(9_007_199_254_740_993),
    };
    let row = DbBlockInfo::from_event(&present);
    assert_eq!(row.block_time, Some(-42));
    assert_eq!(row.block_height, Some(9_007_199_254_740_993));
}

#[test]
fn converts_largest_slot() {
    let ev = BlockReplicaEvent {
        slot: i64::MAX as u64,
        blockhash: "max".to_string(),
        rewards: Vec::new(),
        block_time: None,
        block_height: Some(i64::MAX as u64),
    };
    let row = DbBlockInfo::from_event(&ev);
    assert_eq!(row.slot, i64::MAX);
    assert_eq!(row.block_height, Some(i64::MAX));
}

#[test]
fn reward_kind_labels_exact() {
    assert_eq!(reward_kind_label(&RewardKind::Fee), "fee");
    assert_eq!(reward_kind_label(&RewardKind::Rent), "rent");
    assert_eq!(reward_kind_label(&RewardKind::Staking), "staking");
    assert_eq!(reward_kind_label(&RewardKind::Voting), "voting");
}

#[test]
fn converts_single_reward_exactly() {
    let e = RewardEntry {
        pubkey: "validator-key".to_string(),
        lamports: -123_456,
        post_balance: 987_654_321,
        reward_kind: Some(RewardKind::Staking),
        commission: Some(5),
    };
    let d = DbReward::from_entry(&e);
    assert_eq!(d.pubkey, "validator-key");
    assert_eq!(d.lamports, -123_456);
    assert_eq!(d.post_balance, 987_654_321);
    assert_eq!(d.reward_type, Some("staking".to_string()));
    assert_eq!(d.commission, Some(5));
}

#[test]
fn absent_reward_kind_and_commission_stay_absent() {
    let e = RewardEntry {
        pubkey: "k".to_string(),
        lamports: 1,
        post_balance: 0,
        reward_kind: None,
        commission: None,
    };
    let d = DbReward::from_entry(&e);
    assert_eq!(d.reward_type, None);
    assert_eq!(d.commission, None);
}
