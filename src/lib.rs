//! Prediction-market core: two-sided pools priced with virtual reserves,
//! a bounded probability history, arbiter resolution and principal-plus-profit
//! payouts. Every operation is a verified state transition; the host supplies
//! identities, the clock and the lamport transfers.

pub mod deposit;
pub mod error;
pub mod event;
pub mod identity;
pub mod laws;
pub mod market;
pub mod payout;
pub mod pricing;
pub mod registry;
pub mod state;

pub use deposit::{deposit, DepositInput};
pub use error::BettingError;
pub use event::{CompleteEvent, CreateEvent, DepositEvent};
pub use identity::Identity;
pub use market::{
    create_entry, create_pool, set_winner, update_pool, CreateEntryInput, CreatePoolInput,
    SetWinnerInput, UpdatePoolInput,
};
pub use payout::{claim, claim_creator_fee, ClaimCreatorFeeInput, ClaimInput};
pub use registry::{init_main_state, update_main_state, UpdateMainStateInput};
pub use state::{EntryState, MainState, PoolHistoryState, PoolState, ProbabilityPoint, Winner};
