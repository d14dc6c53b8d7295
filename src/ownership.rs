use vstd::prelude::*;

use crate::error::BidError;
use crate::state::{Identity, KeyHolders, Ownership};

verus! {

impl Ownership {
    /// Admits `caller` only when it is the current owner.
    pub fn verify_ownership(&self, caller: Identity) -> (r: Result<(), BidError>)
        ensures
            r is Ok <==> caller == self.owner,
            r matches Err(e) ==> e == BidError::Unauthorized,
    {
        if caller == self.owner {
            Ok(())
        } else {
            Err(BidError::Unauthorized)
        }
    }
}

/// Makes `owner` the administrator; only once.
pub fn initialize_ownership(ownership: &mut Ownership, owner: Identity, now: i64) -> (r: Result<
    (),
    BidError,
>)
    ensures
        r is Ok <==> !old(ownership).initialized,
        r matches Err(e) ==> e == BidError::OwnershipAlreadyInitialized,
        r is Err ==> *final(ownership) == *old(ownership),
        r is Ok ==> *final(ownership) == (Ownership { owner, timestamp: now, initialized: true }),
{
    if ownership.initialized {
        return Err(BidError::OwnershipAlreadyInitialized);
    }
    *ownership = Ownership { owner, timestamp: now, initialized: true };
    Ok(())
}

/// Hands the administration from the current owner to `new_owner`.
pub fn transfer_ownership(ownership: &mut Ownership, caller: Identity, new_owner: Identity, now: i64) -> (r:
    Result<(), BidError>)
    ensures
        r is Ok <==> caller == old(ownership).owner,
        r matches Err(e) ==> e == BidError::Unauthorized,
        r is Err ==> *final(ownership) == *old(ownership),
        r is Ok ==> *final(ownership) == (Ownership {
            owner: new_owner,
            timestamp: now,
            initialized: old(ownership).initialized,
        }),
{
    ownership.verify_ownership(caller)?;
    ownership.owner = new_owner;
    ownership.timestamp = now;
    Ok(())
}

/// Sets up an empty record for group `group_number`; owner only.
pub fn create_key_holder_account(
    ownership: &Ownership,
    key_holders: &mut KeyHolders,
    caller: Identity,
    group_number: u64,
) -> (r: Result<(), BidError>)
    ensures
        r is Ok <==> caller == ownership.owner,
        r matches Err(e) ==> e == BidError::Unauthorized,
        r is Err ==> final(key_holders).group_number == old(key_holders).group_number,
        r is Err ==> final(key_holders).holders@ == old(key_holders).holders@,
        r is Ok ==> final(key_holders).group_number == group_number,
        r is Ok ==> final(key_holders).holders@.len() == 0 && final(key_holders).wf(),
{
    ownership.verify_ownership(caller)?;
    key_holders.group_number = group_number;
    key_holders.holders = Vec::new();
    Ok(())
}

/// Admits the closing of a group's record; owner only.
pub fn close_key_holder_account(ownership: &Ownership, caller: Identity, _group_number: u64) -> (r:
    Result<(), BidError>)
    ensures
        r is Ok <==> caller == ownership.owner,
        r matches Err(e) ==> e == BidError::Unauthorized,
{
    ownership.verify_ownership(caller)
}

/// Admits the closing of the round's record; owner only.
pub fn close_game(ownership: &Ownership, caller: Identity) -> (r: Result<(), BidError>)
    ensures
        r is Ok <==> caller == ownership.owner,
        r matches Err(e) ==> e == BidError::Unauthorized,
{
    ownership.verify_ownership(caller)
}

} // verus!
