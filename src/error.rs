use vstd::prelude::*;

verus! {

/// Failures of the lifecycle operations, in their stable order.
#[derive(Debug, Clone, Copy, PartialEq, Eq, Structural)]
pub enum BettingError {
    Uninitialized,
    AlreadyInitialized,
    Unauthorized,
    BetEnded,
    InvalidBet,
    BetComplete,
    BetNotEnded,
    AlreadyClaimed,
    BetNotComplete,
    WrongBet,
    TitleTooLong,
    DescriptionTooLong,
    TitleEmpty,
    DescriptionEmpty,
    MathOverflow,
    /// The creator and platform fees together reach the whole pool.
    InvalidFeeConfig,
}

} // verus!
