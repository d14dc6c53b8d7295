use vstd::prelude::*;

use crate::error::BidError;
use crate::state::{Game, Identity, ReferralAccount};

verus! {

/// Opens a referral record under `ref_code` for `payer`; a record that is already
/// active cannot be opened again.
pub fn create_referral_account(
    referral_account: &mut ReferralAccount,
    payer: Identity,
    ref_code: String,
    now: i64,
) -> (r: Result<(), BidError>)
    ensures
        r is Ok <==> !old(referral_account).active,
        r matches Err(e) ==> e == BidError::AlreadyActivedReferralAccount,
        r is Err ==> final(referral_account).owner == old(referral_account).owner
            && final(referral_account).ref_code@ == old(referral_account).ref_code@
            && final(referral_account).active == old(referral_account).active
            && final(referral_account).total_earned == old(referral_account).total_earned
            && final(referral_account).created_at == old(referral_account).created_at,
        r is Ok ==> final(referral_account).owner == payer && final(referral_account).ref_code@
            == ref_code@ && final(referral_account).active && final(referral_account).total_earned
            == 0 && final(referral_account).created_at == now,
{
    if referral_account.active {
        return Err(BidError::AlreadyActivedReferralAccount);
    }
    referral_account.active = true;
    referral_account.owner = payer;
    referral_account.ref_code = ref_code;
    referral_account.total_earned = 0;
    referral_account.created_at = now;
    Ok(())
}

/// Why a referral bonus claim is rejected, checked in this order; `None` when it
/// goes through.
pub open spec fn referral_claim_error(r: ReferralAccount, g: Game, payer: Identity) -> Option<
    BidError,
> {
    if !(r.active && r.owner == payer) {
        Some(BidError::IncorrectReferralData)
    } else if r.total_earned == 0 {
        Some(BidError::NoReferralBonus)
    } else if g.referral_earned < r.total_earned {
        Some(BidError::ArithmeticOverflow)
    } else {
        None
    }
}

/// Pays the referrer their accrued bonus, capped at what the escrow pool holds.
/// Returns the amount to pay out of the escrow pool.
pub fn claim_referral_bonus(
    referral_account: &mut ReferralAccount,
    game: &mut Game,
    payer: Identity,
    vault_balance: u64,
    _ref_code: String,
) -> (r: Result<u64, BidError>)
    ensures
        match r {
            Ok(amount) => {
                let earned = old(referral_account).total_earned;
                &&& referral_claim_error(*old(referral_account), *old(game), payer) is None
                &&& amount == if earned < vault_balance {
                    earned
                } else {
                    vault_balance
                }
                &&& final(referral_account).total_earned == 0
                &&& *final(game) == (Game {
                    referral_earned: (old(game).referral_earned - earned) as u64,
                    ..*old(game)
                })
            },
            Err(e) => {
                &&& referral_claim_error(*old(referral_account), *old(game), payer) == Some(e)
                &&& final(referral_account).total_earned == old(referral_account).total_earned
                &&& *final(game) == *old(game)
            },
        },
        final(referral_account).owner == old(referral_account).owner,
        final(referral_account).ref_code@ == old(referral_account).ref_code@,
        final(referral_account).active == old(referral_account).active,
        final(referral_account).created_at == old(referral_account).created_at,
{
    if !(referral_account.active && referral_account.owner == payer) {
        return Err(BidError::IncorrectReferralData);
    }
    if referral_account.total_earned == 0 {
        return Err(BidError::NoReferralBonus);
    }
    let earned = referral_account.total_earned;
    if game.referral_earned < earned {
        return Err(BidError::ArithmeticOverflow);
    }
    let amount = if earned < vault_balance {
        earned
    } else {
        vault_balance
    };
    game.referral_earned = game.referral_earned - earned;
    referral_account.total_earned = 0;
    Ok(amount)
}

} // verus!
