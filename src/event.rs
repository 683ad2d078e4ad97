use vstd::prelude::*;

use crate::identity::Identity;
use crate::state::Winner;

verus! {

/// Emitted when a market is created.
#[derive(Debug, Clone)]
pub struct CreateEvent {
    pub creator: Identity,
    pub bet_id: u64,
    pub title: String,
    pub description: String,
    pub end_timestamp: i64,
    pub referee: Identity,
    pub share_uuid: String,
    pub timestamp: i64,
}

/// Emitted on every accepted deposit; the host moves `sol_amount` lamports
/// from `user` into the vault.
#[derive(Debug, Clone, Copy)]
pub struct DepositEvent {
    pub user: Identity,
    pub bet_id: u64,
    pub sol_amount: u64,
    pub token_amount: u64,
    pub is_yes: bool,
    pub timestamp: i64,
}

/// Emitted when a market is resolved.
#[derive(Debug, Clone, Copy)]
pub struct CompleteEvent {
    pub referee: Identity,
    pub bet_id: u64,
    pub winner: Winner,
    pub timestamp: i64,
}

} // verus!
