use vstd::prelude::*;

verus! {

/// A 32-byte account identity, as two 128-bit halves.
#[derive(Clone, Copy, Debug, PartialEq, Eq, Structural)]
pub struct Identity {
    pub hi: u128,
    pub lo: u128,
}

impl Identity {
    /// The all-zero identity, which stands for "nobody".
    pub fn empty() -> (r: Identity)
        ensures
            r.hi == 0 && r.lo == 0,
    {
        Identity { hi: 0, lo: 0 }
    }
}

/// The single administrator of the game.
#[derive(Clone, Copy, Debug, PartialEq, Eq, Structural)]
pub struct Ownership {
    pub owner: Identity,
    pub timestamp: i64,
    pub initialized: bool,
}

/// The state of the current round.
#[derive(Clone, Copy, Debug, PartialEq, Eq, Structural)]
pub struct Game {
    pub game_id: u64,
    pub owner: Identity,
    pub last_bidder: Identity,
    pub treasury: Identity,
    pub bid_token_mint: Identity,
    pub current_price: u64,
    pub prize_pool_balance: u64,
    pub revenue_earned: u64,
    pub referral_earned: u64,
    pub last_purchase_time: i64,
    pub timer_end: i64,
    pub total_keys: u64,
    pub total_amount: u64,
    pub total_groups: u64,
    pub total_holders: u64,
    pub active: bool,
    pub prized: bool,
}

/// One holder's position within a group.
#[derive(Clone, Copy, Debug, PartialEq, Eq, Structural)]
pub struct KeyHolder {
    pub holder: Identity,
    pub keys: u64,
    pub total_earned: u64,
    pub claimed: bool,
}

/// A capacity-bounded shard of the key holders of a round.
#[derive(Clone, Debug)]
pub struct KeyHolders {
    pub group_number: u64,
    pub holders: Vec<KeyHolder>,
}

/// Pending key-holder revenue of each group, indexed by group number.
#[derive(Clone, Debug)]
pub struct GroupRevenueCounter {
    pub group_counter: Vec<u64>,
}

/// What the game remembers of one buyer in one round.
#[derive(Clone, Copy, Debug, PartialEq, Eq, Structural)]
pub struct BuyerGameData {
    pub game_id: u64,
    pub first_time_buying: bool,
}

/// A referrer's record.
#[derive(Clone, Debug)]
pub struct ReferralAccount {
    pub owner: Identity,
    pub ref_code: String,
    pub active: bool,
    pub total_earned: u64,
    pub created_at: i64,
}

/// No identity appears twice among the holders of a group.
pub open spec fn distinct_holders(s: Seq<KeyHolder>) -> bool {
    forall|i: int, j: int| 0 <= i < s.len() && 0 <= j < s.len() && i != j ==> s[i].holder != s[j].holder
}

/// `id` holds a position in the group.
pub open spec fn is_member(s: Seq<KeyHolder>, id: Identity) -> bool {
    exists|i: int| 0 <= i < s.len() && s[i].holder == id
}

impl KeyHolders {
    /// The group's holders are distinct.
    pub open spec fn wf(&self) -> bool {
        distinct_holders(self.holders@)
    }
}

} // verus!
