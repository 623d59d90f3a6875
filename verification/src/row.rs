//! Conversion of a block-replica event into the canonical `block`-table row.
//!
//! The conversion is a pure function of the event: every numeric field of the
//! row equals the corresponding field of the event exactly (widening or
//! narrowing never saturates or truncates), the reward sequence keeps its
//! order and count, and absent optional fields stay absent.

use vstd::prelude::*;
use vstd::string::StringExecFns;

verus! {

/// The kind of reward paid to a participant, as tagged by the host.
#[derive(Clone, Copy, Debug, PartialEq, Eq, Structural)]
pub enum RewardKind {
    Fee,
    Rent,
    Staking,
    Voting,
}

/// One participant's reward for a block, as delivered by the host.
///
/// The conversion below treats it as an atomic value: each field is carried
/// over with only a change of representation, never validated or filtered.
pub struct RewardEntry {
    pub pubkey: String,
    pub lamports: i64,
    pub post_balance: u64,
    pub reward_kind: Option<RewardKind>,
    pub commission: Option<u8>,
}

/// A block-replica event: the metadata of one finalized block, delivered
/// once per block by the host process.
pub struct BlockReplicaEvent {
    pub slot: u64,
    pub blockhash: String,
    pub rewards: Vec<RewardEntry>,
    pub block_time: Option<i64>,
    pub block_height: Option<u64>,
}

/// Storage form of one reward entry: the shape of one element of the
/// `rewards` column.
#[derive(Clone, Debug)]
pub struct DbReward {
    pub pubkey: String,
    pub lamports: i64,
    pub post_balance: i64,
    pub reward_type: Option<String>,
    pub commission: Option<i16>,
}

/// The canonical persisted entity: one row of the `block` table, short of
/// the `updated_on` stamp, which the sink originates at execution time.
#[derive(Clone, Debug)]
pub struct DbBlockInfo {
    pub slot: i64,
    pub blockhash: String,
    pub rewards: Vec<DbReward>,
    pub block_time: Option<i64>,
    pub block_height: Option<i64>,
}

/// The text label under which a reward kind is persisted.
pub open spec fn kind_label(k: RewardKind) -> Seq<char> {
    match k {
        RewardKind::Fee => "fee"@,
        RewardKind::Rent => "rent"@,
        RewardKind::Staking => "staking"@,
        RewardKind::Voting => "voting"@,
    }
}

/// A reward entry whose unsigned balance fits the signed storage width.
pub open spec fn entry_fits(e: RewardEntry) -> bool {
    e.post_balance <= i64::MAX as u64
}

/// A valid event: its unsigned fields fit the signed 64-bit storage width.
///
/// Block numbers never exceed that range in practice; the bound is stated
/// here so that the conversion is exact on every admitted input.
pub open spec fn event_fits(ev: BlockReplicaEvent) -> bool {
    &&& ev.slot <= i64::MAX as u64
    &&& match ev.block_height {
        Some(h) => h <= i64::MAX as u64,
        None => true,
    }
    &&& forall|i: int| 0 <= i < ev.rewards@.len() ==> entry_fits(#[trigger] ev.rewards@[i])
}

/// The storage reward `d` is the exact converted image of the entry `e`.
pub open spec fn reward_converted(e: RewardEntry, d: DbReward) -> bool {
    &&& d.pubkey@ == e.pubkey@
    &&& d.lamports == e.lamports
    &&& d.post_balance as int == e.post_balance as int
    &&& match (e.reward_kind, d.reward_type) {
        (Some(k), Some(label)) => label@ == kind_label(k),
        (None, None) => true,
        _ => false,
    }
    &&& match (e.commission, d.commission) {
        (Some(c), Some(dc)) => dc as int == c as int,
        (None, None) => true,
        _ => false,
    }
}

/// The row is the exact converted image of the event: numeric fields equal
/// the source values, the reward sequence keeps order and count, and the
/// optional fields pass through (absent stays absent, present unchanged).
pub open spec fn row_of_event(ev: BlockReplicaEvent, row: DbBlockInfo) -> bool {
    &&& row.slot as int == ev.slot as int
    &&& row.blockhash@ == ev.blockhash@
    &&& row.rewards@.len() == ev.rewards@.len()
    &&& forall|i: int|
        0 <= i < ev.rewards@.len() ==> reward_converted(ev.rewards@[i], #[trigger] row.rewards@[i])
    &&& row.block_time == ev.block_time
    &&& match ev.block_height {
        Some(h) => row.block_height matches Some(g) && g as int == h as int,
        None => row.block_height matches None,
    }
}

/// The label under which a reward kind is persisted.
pub fn reward_kind_label(k: &RewardKind) -> (s: String)
    ensures
        s@ == kind_label(*k),
{
    match k {
        RewardKind::Fee => String::from_str("fee"),
        RewardKind::Rent => String::from_str("rent"),
        RewardKind::Staking => String::from_str("staking"),
        RewardKind::Voting => String::from_str("voting"),
    }
}

impl DbReward {
    /// Convert one reward entry to its storage form: a deterministic,
    /// stateless, one-to-one mapping.
    pub fn from_entry(e: &RewardEntry) -> (d: DbReward)
        requires
            entry_fits(*e),
        ensures
            reward_converted(*e, d),
    {
        DbReward {
            pubkey: e.pubkey.clone(),
            lamports: e.lamports,
            post_balance: e.post_balance as i64,
            reward_type: match &e.reward_kind {
                Some(k) => Some(reward_kind_label(k)),
                None => None,
            },
            commission: match e.commission {
                Some(c) => Some(c as i16),
                None => None,
            },
        }
    }
}

impl DbBlockInfo {
    /// Convert a block-replica event into the canonical row.
    ///
    /// Total on every valid event: it cannot fail, and every field of the
    /// result is the exact image of the corresponding event field.
    pub fn from_event(ev: &BlockReplicaEvent) -> (row: DbBlockInfo)
        requires
            event_fits(*ev),
        ensures
            row_of_event(*ev, row),
    {
        let mut rewards: Vec<DbReward> = Vec::new();
        let mut i: usize = 0;
        while i < ev.rewards.len()
            invariant
                event_fits(*ev),
                i <= ev.rewards.len(),
                rewards@.len() == i as int,
                forall|j: int|
                    0 <= j < i as int ==> reward_converted(
                        ev.rewards@[j],
                        #[trigger] rewards@[j],
                    ),
            decreases ev.rewards@.len() - i as int,
        {
            let d = DbReward::from_entry(&ev.rewards[i]);
            rewards.push(d);
            i = i + 1;
        }
        DbBlockInfo {
            slot: ev.slot as i64,
            blockhash: ev.blockhash.clone(),
            rewards,
            block_time: ev.block_time,
            block_height: match ev.block_height {
                Some(h) => Some(h as i64),
                None => None,
            },
        }
    }
}

} // verus!
