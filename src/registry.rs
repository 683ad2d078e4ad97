use vstd::prelude::*;

use crate::error::BettingError;
use crate::identity::Identity;
use crate::payout::BPS_DENOMINATOR;
use crate::state::MainState;

verus! {

/// Initial price copied onto each new market.
pub const INITIAL_PRICE: u64 = 100_000_000;

/// Scale factor copied onto each new market.
pub const SCALE_FACTOR: u64 = 10_000_000;

/// Default creator fee: 1%, in basis points.
pub const CREATOR_FEE_PERCENT: u64 = 100;

/// Default platform fee: 2%, in basis points.
pub const PLATFORM_FEE_PERCENT: u64 = 200;

impl MainState {
    /// The registry as it stands before initialization: all zero, owned by
    /// the all-zero identity.
    pub fn uninitialized() -> (r: MainState)
        ensures
            !r.initialized,
            r.owner.key() == Seq::new(32, |i: int| 0u8),
            r.scale_factor == 0 && r.initial_price == 0 && r.current_bet_id == 0,
            r.creator_fee_percent == 0 && r.platform_fee_percent == 0,
    {
        let owner = Identity::new([0u8; 32]);
        proof {
            assert(owner.key() =~= Seq::new(32, |i: int| 0u8));
        }
        MainState {
            initialized: false,
            owner,
            scale_factor: 0,
            initial_price: 0,
            current_bet_id: 0,
            creator_fee_percent: 0,
            platform_fee_percent: 0,
        }
    }
}

/// Both fees together stay below the whole pool.
pub open spec fn fees_fit(creator_fee_percent: u64, platform_fee_percent: u64) -> bool {
    creator_fee_percent + platform_fee_percent < BPS_DENOMINATOR
}

impl MainState {
    /// The registry invariant: its fees together stay below the whole pool.
    pub open spec fn wf(&self) -> bool {
        fees_fit(self.creator_fee_percent, self.platform_fee_percent)
    }
}

/// The registry right after `owner` initialized it.
pub open spec fn initialized_by(owner: Identity) -> MainState {
    MainState {
        initialized: true,
        owner,
        scale_factor: SCALE_FACTOR,
        initial_price: INITIAL_PRICE,
        current_bet_id: 0,
        creator_fee_percent: CREATOR_FEE_PERCENT,
        platform_fee_percent: PLATFORM_FEE_PERCENT,
    }
}

/// Initializes the registry once; the caller becomes the platform owner.
/// Funding the vault with its rent minimum is left to the host.
pub fn init_main_state(main_state: &mut MainState, owner: Identity) -> (r: Result<(), BettingError>)
    ensures
        old(main_state).initialized ==> r == Err::<(), BettingError>(BettingError::AlreadyInitialized)
            && *final(main_state) == *old(main_state),
        !old(main_state).initialized ==> r is Ok && *final(main_state) == initialized_by(owner),
        r is Ok ==> final(main_state).wf(),
{
    if main_state.initialized {
        return Err(BettingError::AlreadyInitialized);
    }
    *main_state = MainState {
        initialized: true,
        owner,
        scale_factor: SCALE_FACTOR,
        initial_price: INITIAL_PRICE,
        current_bet_id: 0,
        creator_fee_percent: CREATOR_FEE_PERCENT,
        platform_fee_percent: PLATFORM_FEE_PERCENT,
    };
    Ok(())
}

/// New registry settings, written over the old ones wholesale.
#[derive(Debug, Clone, Copy)]
pub struct UpdateMainStateInput {
    pub owner: Identity,
    pub initial_price: u64,
    pub scale_factor: u64,
    pub creator_fee_percent: u64,
    pub platform_fee_percent: u64,
}

/// The error that stops `caller` from updating the registry, if any.
pub open spec fn registry_update_error(
    main: MainState,
    caller: Identity,
    input: UpdateMainStateInput,
) -> Option<BettingError> {
    if !main.initialized {
        Some(BettingError::Uninitialized)
    } else if caller.key() != main.owner.key() {
        Some(BettingError::Unauthorized)
    } else if !fees_fit(input.creator_fee_percent, input.platform_fee_percent) {
        Some(BettingError::InvalidFeeConfig)
    } else {
        None
    }
}

/// Lets the platform owner replace the owner, the pricing constants and the
/// fees; the market counter is kept. Fees that together reach the whole pool
/// are refused.
pub fn update_main_state(
    main_state: &mut MainState,
    signer: Identity,
    input: UpdateMainStateInput,
) -> (r: Result<(), BettingError>)
    ensures
        match r {
            Ok(()) => {
                &&& registry_update_error(*old(main_state), signer, input) is None
                &&& *final(main_state) == (MainState {
                    owner: input.owner,
                    initial_price: input.initial_price,
                    scale_factor: input.scale_factor,
                    creator_fee_percent: input.creator_fee_percent,
                    platform_fee_percent: input.platform_fee_percent,
                    ..*old(main_state)
                })
                &&& final(main_state).wf()
            },
            Err(e) => {
                &&& registry_update_error(*old(main_state), signer, input) == Some(e)
                &&& *final(main_state) == *old(main_state)
            },
        },
{
    if !main_state.initialized {
        return Err(BettingError::Uninitialized);
    }
    if !(main_state.owner == signer) {
        return Err(BettingError::Unauthorized);
    }
    if (input.creator_fee_percent as u128) + (input.platform_fee_percent as u128) >= BPS_DENOMINATOR {
        return Err(BettingError::InvalidFeeConfig);
    }
    main_state.owner = input.owner;
    main_state.initial_price = input.initial_price;
    main_state.scale_factor = input.scale_factor;
    main_state.creator_fee_percent = input.creator_fee_percent;
    main_state.platform_fee_percent = input.platform_fee_percent;
    Ok(())
}

} // verus!
