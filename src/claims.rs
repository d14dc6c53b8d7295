use vstd::prelude::*;

use crate::error::BidError;
use crate::game::{current_group, groups_consistent, MAX_HOLDERS};
use crate::holders::{apply_sweep, check_sweep_fits, find_holder, holder_index, sweep_fits, swept};
use crate::state::{is_member, Game, GroupRevenueCounter, Identity, KeyHolder, KeyHolders};

verus! {

/// What the claim owes `payer`: their balance plus their keys' part of the
/// group's pending revenue, before any cap.
pub open spec fn revenue_due(s: Seq<KeyHolder>, payer: Identity, revenue: u64) -> int {
    let h = s[holder_index(s, payer)];
    h.total_earned + h.keys * revenue
}

/// Why a revenue claim is rejected, checked in this order; `None` when it goes through.
pub open spec fn claim_error(
    g: Game,
    kh: KeyHolders,
    ledger: Seq<u64>,
    payer: Identity,
    group_number: u64,
) -> Option<BidError> {
    if g.total_holders == 0 {
        Some(BidError::NoKeyHolders)
    } else if !(group_number < current_group(g) && kh.group_number == group_number) {
        Some(BidError::IncorrectGroupNumber)
    } else if !is_member(kh.holders@, payer) {
        Some(BidError::PayerNotInKeyHolders)
    } else if !(kh.holders@[holder_index(kh.holders@, payer)].total_earned > 0
        && !kh.holders@[holder_index(kh.holders@, payer)].claimed) {
        Some(BidError::NoRevenue)
    } else if !(sweep_fits(kh.holders@, payer, ledger[group_number as int]) && revenue_due(
        kh.holders@,
        payer,
        ledger[group_number as int],
    ) <= g.revenue_earned) {
        Some(BidError::ArithmeticOverflow)
    } else {
        None
    }
}

/// Claims the caller's key-holder revenue from a closed group. The group's
/// pending revenue is swept into every other holder's balance, the caller's
/// balance and share are paid, capped at what the escrow pool holds, and the
/// group's pending revenue is cleared. The caller's record stays marked as
/// claimed from then on. Returns the amount to pay out of the escrow pool.
pub fn claim_revenue(
    game: &mut Game,
    key_holders: &mut KeyHolders,
    group_revenue_counter: &mut GroupRevenueCounter,
    payer: Identity,
    vault_balance: u64,
    group_number: u64,
) -> (r: Result<u64, BidError>)
    requires
        groups_consistent(*old(game), old(group_revenue_counter).group_counter@),
        old(key_holders).wf(),
    ensures
        final(key_holders).wf(),
        groups_consistent(*final(game), final(group_revenue_counter).group_counter@),
        match r {
            Ok(amount) => {
                let ledger = old(group_revenue_counter).group_counter@;
                let revenue = ledger[group_number as int];
                let due = revenue_due(old(key_holders).holders@, payer, revenue);
                &&& claim_error(*old(game), *old(key_holders), ledger, payer, group_number) is None
                &&& amount == if due < vault_balance {
                    due
                } else {
                    vault_balance as int
                }
                &&& amount <= vault_balance
                &&& final(key_holders).holders@ == swept(old(key_holders).holders@, payer, revenue)
                &&& final(key_holders).group_number == old(key_holders).group_number
                &&& final(group_revenue_counter).group_counter@ == ledger.update(
                    group_number as int,
                    0,
                )
                &&& *final(game) == (Game {
                    revenue_earned: (old(game).revenue_earned - due) as u64,
                    ..*old(game)
                })
            },
            Err(e) => {
                &&& claim_error(
                    *old(game),
                    *old(key_holders),
                    old(group_revenue_counter).group_counter@,
                    payer,
                    group_number,
                ) == Some(e)
                &&& *final(game) == *old(game)
                &&& final(key_holders).holders@ == old(key_holders).holders@
                &&& final(key_holders).group_number == old(key_holders).group_number
                &&& final(group_revenue_counter).group_counter@ == old(
                    group_revenue_counter,
                ).group_counter@
            },
        },
{
    if game.total_holders == 0 {
        return Err(BidError::NoKeyHolders);
    }
    let current: u64 = game.total_holders / MAX_HOLDERS;
    if !(group_number < current && key_holders.group_number == group_number) {
        return Err(BidError::IncorrectGroupNumber);
    }
    let i = match find_holder(&key_holders.holders, payer) {
        Some(i) => i,
        None => {
            return Err(BidError::PayerNotInKeyHolders);
        },
    };
    proof {
        let s = key_holders.holders@;
        assert(s[holder_index(s, payer)].holder == payer);
        assert(holder_index(s, payer) == i as int);
    }
    let h = key_holders.holders[i];
    if !(h.total_earned > 0 && !h.claimed) {
        return Err(BidError::NoRevenue);
    }
    let _entries = group_revenue_counter.group_counter.len();
    let revenue = group_revenue_counter.group_counter[group_number as usize];
    assert((h.keys as u128) * (revenue as u128) <= 0xffff_ffff_ffff_ffffu128
        * 0xffff_ffff_ffff_ffffu128) by (nonlinear_arith);
    let due: u128 = (h.total_earned as u128) + (h.keys as u128) * (revenue as u128);
    if !(check_sweep_fits(&key_holders.holders, payer, revenue) && due <= game.revenue_earned as u128) {
        return Err(BidError::ArithmeticOverflow);
    }
    let due: u64 = due as u64;
    let amount = if due < vault_balance {
        due
    } else {
        vault_balance
    };
    apply_sweep(key_holders, payer, revenue);
    group_revenue_counter.group_counter.set(group_number as usize, 0);
    game.revenue_earned = game.revenue_earned - due;
    Ok(amount)
}

/// A holder is paid a group's revenue once: after a successful claim their record
/// is marked as claimed, so claiming again from the same group is rejected with
/// `NoRevenue` whatever the group has accrued since.
pub proof fn lemma_claim_only_once(
    g: Game,
    kh: KeyHolders,
    kh2: KeyHolders,
    ledger: Seq<u64>,
    ledger2: Seq<u64>,
    payer: Identity,
    group_number: u64,
)
    requires
        kh.wf(),
        claim_error(g, kh, ledger, payer, group_number) is None,
        kh2.group_number == kh.group_number,
        kh2.holders@ == swept(kh.holders@, payer, ledger[group_number as int]),
    ensures
        forall|later: Game|
            later.total_holders >= g.total_holders ==> claim_error(
                later,
                kh2,
                ledger2,
                payer,
                group_number,
            ) == Some(BidError::NoRevenue),
{
    let s = kh.holders@;
    let s2 = kh2.holders@;
    let i = holder_index(s, payer);
    assert(s2[i].holder == payer);
    assert(is_member(s2, payer));
    assert(holder_index(s2, payer) == i);
    assert forall|later: Game| later.total_holders >= g.total_holders implies claim_error(
        later,
        kh2,
        ledger2,
        payer,
        group_number,
    ) == Some(BidError::NoRevenue) by {
        assert(later.total_holders as int / MAX_HOLDERS as int >= g.total_holders as int
            / MAX_HOLDERS as int);
    }
}

} // verus!
