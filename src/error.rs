use vstd::prelude::*;

verus! {

/// Every way an operation of the game can be rejected. A rejected operation
/// leaves every record it was handed unchanged.
#[derive(Clone, Copy, Debug, PartialEq, Eq, Structural)]
pub enum BidError {
    Unauthorized,
    OwnershipAlreadyInitialized,
    RestNotFinished,
    GameEnded,
    IncorrectGroupNumber,
    NotTreasury,
    IncorrectReferralData,
    IncorrectBidToken,
    InsufficientBidTokens,
    InvalidPaymentAmount,
    ArithmeticOverflow,
    TimerNotExpired,
    AlreadyPrized,
    NoKeyHolders,
    NoRevenue,
    PayerNotInKeyHolders,
    NoReferralBonus,
    AlreadyActivedReferralAccount,
}

} // verus!
