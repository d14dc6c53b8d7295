use vstd::prelude::*;

use crate::state::{is_member, GroupRevenueCounter, Identity, KeyHolder, KeyHolders};

verus! {

/// Where `id` stands among the holders, when it is a member.
pub open spec fn holder_index(s: Seq<KeyHolder>, id: Identity) -> int {
    choose|i: int| 0 <= i < s.len() && s[i].holder == id
}

/// Crediting `n` keys to `id` stays within 64 bits.
pub open spec fn credit_fits(s: Seq<KeyHolder>, id: Identity, n: u64) -> bool {
    is_member(s, id) ==> s[holder_index(s, id)].keys + n <= u64::MAX
}

/// The holders after `id` bought `n` keys: a member's count grows, a newcomer is
/// appended with nothing earned yet.
pub open spec fn credit_keys(s: Seq<KeyHolder>, id: Identity, n: u64) -> Seq<KeyHolder> {
    if is_member(s, id) {
        let i = holder_index(s, id);
        s.update(
            i,
            KeyHolder {
                holder: s[i].holder,
                keys: (s[i].keys + n) as u64,
                total_earned: s[i].total_earned,
                claimed: s[i].claimed,
            },
        )
    } else {
        s.push(KeyHolder { holder: id, keys: n, total_earned: 0, claimed: false })
    }
}

/// Finds the position of `id` among the holders.
pub fn find_holder(holders: &Vec<KeyHolder>, id: Identity) -> (r: Option<usize>)
    ensures
        r is None <==> !is_member(holders@, id),
        r matches Some(i) ==> i < holders@.len() && holders@[i as int].holder == id,
{
    let mut i: usize = 0;
    while i < holders.len()
        invariant
            i <= holders@.len(),
            forall|j: int| 0 <= j < i ==> holders@[j].holder != id,
        decreases holders@.len() - i,
    {
        if holders[i].holder == id {
            return Some(i);
        }
        i = i + 1;
    }
    None
}

/// Whether `buyer` already holds a position in the group.
pub fn check_if_buyer_is_in_the_group(key_holders: &KeyHolders, buyer: Identity) -> (r: bool)
    ensures
        r == is_member(key_holders.holders@, buyer),
{
    find_holder(&key_holders.holders, buyer).is_some()
}

impl KeyHolders {
    /// Whether no identity appears twice among the holders.
    pub fn is_well_formed(&self) -> (r: bool)
        ensures
            r == self.wf(),
    {
        let mut i: usize = 0;
        while i < self.holders.len()
            invariant
                i <= self.holders@.len(),
                forall|a: int, b: int| 0 <= a < i && 0 <= b < self.holders@.len() && a != b ==> self.holders@[a].holder != self.holders@[b].holder,
            decreases self.holders@.len() - i,
        {
            let mut j: usize = 0;
            while j < self.holders.len()
                invariant
                    i < self.holders@.len(),
                    j <= self.holders@.len(),
                    forall|a: int, b: int| 0 <= a < i && 0 <= b < self.holders@.len() && a != b ==> self.holders@[a].holder != self.holders@[b].holder,
                    forall|b: int| 0 <= b < j && b != i ==> self.holders@[i as int].holder != self.holders@[b].holder,
                decreases self.holders@.len() - j,
            {
                if j != i && self.holders[i].holder == self.holders[j].holder {
                    assert(!crate::state::distinct_holders(self.holders@)) by {
                        assert(self.holders@[i as int].holder == self.holders@[j as int].holder);
                    }
                    return false;
                }
                j = j + 1;
            }
            i = i + 1;
        }
        true
    }
}

/// Records that `buyer` bought `number_of_keys` keys in this group.
pub fn update_key_holders(key_holders: &mut KeyHolders, buyer: Identity, number_of_keys: u64)
    requires
        old(key_holders).wf(),
        credit_fits(old(key_holders).holders@, buyer, number_of_keys),
    ensures
        final(key_holders).wf(),
        final(key_holders).group_number == old(key_holders).group_number,
        final(key_holders).holders@ == credit_keys(old(key_holders).holders@, buyer, number_of_keys),
{
    match find_holder(&key_holders.holders, buyer) {
        Some(i) => {
            let h = key_holders.holders[i];
            let updated = KeyHolder {
                holder: h.holder,
                keys: h.keys + number_of_keys,
                total_earned: h.total_earned,
                claimed: h.claimed,
            };
            key_holders.holders.set(i, updated);
        },
        None => {
            key_holders.holders.push(
                KeyHolder { holder: buyer, keys: number_of_keys, total_earned: 0, claimed: false },
            );
        },
    }
}

/// The holders after `payer` claimed a sweep of `revenue` per key: every other
/// holder is credited `revenue` times their keys, and the payer's balance is
/// paid out and marked as claimed.
pub open spec fn swept(s: Seq<KeyHolder>, payer: Identity, revenue: u64) -> Seq<KeyHolder> {
    Seq::new(
        s.len(),
        |i: int|
            if s[i].holder == payer {
                KeyHolder { holder: s[i].holder, keys: s[i].keys, total_earned: 0, claimed: true }
            } else {
                KeyHolder {
                    holder: s[i].holder,
                    keys: s[i].keys,
                    total_earned: (s[i].total_earned + revenue * s[i].keys) as u64,
                    claimed: s[i].claimed,
                }
            },
    )
}

/// Crediting the sweep to every holder but `payer` stays within 64 bits.
pub open spec fn sweep_fits(s: Seq<KeyHolder>, payer: Identity, revenue: u64) -> bool {
    forall|i: int|
        0 <= i < s.len() && s[i].holder != payer ==> s[i].total_earned + revenue * s[i].keys
            <= u64::MAX
}

/// Whether the sweep fits, checked holder by holder.
pub fn check_sweep_fits(holders: &Vec<KeyHolder>, payer: Identity, revenue: u64) -> (r: bool)
    ensures
        r == sweep_fits(holders@, payer, revenue),
{
    let mut i: usize = 0;
    while i < holders.len()
        invariant
            i <= holders@.len(),
            forall|j: int|
                0 <= j < i && holders@[j].holder != payer ==> holders@[j].total_earned + revenue
                    * holders@[j].keys <= u64::MAX,
        decreases holders@.len() - i,
    {
        let h = holders[i];
        if h.holder != payer {
            assert((revenue as u128) * (h.keys as u128) <= 0xffff_ffff_ffff_ffffu128
                * 0xffff_ffff_ffff_ffffu128) by (nonlinear_arith);
            let credit: u128 = (revenue as u128) * (h.keys as u128);
            if credit + (h.total_earned as u128) > u64::MAX as u128 {
                return false;
            }
        }
        i = i + 1;
    }
    true
}

/// Applies the sweep: credits every other holder and settles the payer's record.
pub fn apply_sweep(key_holders: &mut KeyHolders, payer: Identity, revenue: u64)
    requires
        old(key_holders).wf(),
        sweep_fits(old(key_holders).holders@, payer, revenue),
    ensures
        final(key_holders).wf(),
        final(key_holders).group_number == old(key_holders).group_number,
        final(key_holders).holders@ == swept(old(key_holders).holders@, payer, revenue),
{
    let ghost s = key_holders.holders@;
    let mut i: usize = 0;
    while i < key_holders.holders.len()
        invariant
            i <= key_holders.holders@.len(),
            key_holders.holders@.len() == s.len(),
            key_holders.group_number == old(key_holders).group_number,
            s == old(key_holders).holders@,
            sweep_fits(s, payer, revenue),
            forall|j: int| 0 <= j < i ==> key_holders.holders@[j] == swept(s, payer, revenue)[j],
            forall|j: int| i <= j < s.len() ==> key_holders.holders@[j] == s[j],
        decreases s.len() - i,
    {
        let h = key_holders.holders[i];
        let updated = if h.holder == payer {
            KeyHolder { holder: h.holder, keys: h.keys, total_earned: 0, claimed: true }
        } else {
            assert(s[i as int].total_earned + revenue * s[i as int].keys <= u64::MAX);
            let credit: u64 = revenue * h.keys;
            KeyHolder {
                holder: h.holder,
                keys: h.keys,
                total_earned: h.total_earned + credit,
                claimed: h.claimed,
            }
        };
        key_holders.holders.set(i, updated);
        i = i + 1;
    }
    assert(key_holders.holders@ =~= swept(s, payer, revenue));
}

/// Accrues `amount` of key-holder revenue to the pending revenue of a group.
pub fn adjust_revenue(revenue: &mut GroupRevenueCounter, group_number: u64, amount: u64)
    requires
        group_number < old(revenue).group_counter@.len(),
        old(revenue).group_counter@[group_number as int] + amount <= u64::MAX,
    ensures
        final(revenue).group_counter@ == old(revenue).group_counter@.update(
            group_number as int,
            (old(revenue).group_counter@[group_number as int] + amount) as u64,
        ),
{
    let _entries = revenue.group_counter.len();
    let g = group_number as usize;
    let pending = revenue.group_counter[g];
    revenue.group_counter.set(g, pending + amount);
}

} // verus!
