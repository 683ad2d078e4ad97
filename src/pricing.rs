use vstd::prelude::*;

use crate::error::BettingError;

verus! {

/// Virtual liquidity added to each side before pricing (one whole coin in lamports).
pub const VIRTUAL_AMOUNT: u64 = 1_000_000_000;

/// Fixed-point precision of a price.
pub const PRICE_SCALE: u128 = 1_000_000_000;

pub open spec fn price_yes(yes_reserve: u64, no_reserve: u64) -> int {
    (yes_reserve + VIRTUAL_AMOUNT) * PRICE_SCALE / (yes_reserve + no_reserve + 2 * VIRTUAL_AMOUNT)
}

pub open spec fn price_no(yes_reserve: u64, no_reserve: u64) -> int {
    (no_reserve + VIRTUAL_AMOUNT) * PRICE_SCALE / (yes_reserve + no_reserve + 2 * VIRTUAL_AMOUNT)
}

/// The scaled price of the chosen side.
pub open spec fn side_price(is_yes: bool, yes_reserve: u64, no_reserve: u64) -> int {
    if is_yes {
        price_yes(yes_reserve, no_reserve)
    } else {
        price_no(yes_reserve, no_reserve)
    }
}

/// Whether a deposit can be priced: the side's price is positive and the
/// minted amount fits in 64 bits.
pub open spec fn mintable(amount: u64, is_yes: bool, yes_reserve: u64, no_reserve: u64) -> bool {
    let p = side_price(is_yes, yes_reserve, no_reserve);
    p > 0 && amount * PRICE_SCALE / p <= u64::MAX
}

/// Outcome tokens minted for `amount` lamports on the chosen side.
pub open spec fn tokens_for(amount: u64, is_yes: bool, yes_reserve: u64, no_reserve: u64) -> int {
    amount * PRICE_SCALE / side_price(is_yes, yes_reserve, no_reserve)
}

/// Prices both sides from the reserves plus virtual liquidity and returns the
/// tokens minted for the deposit together with the yes and no prices.
pub fn calculate_token_amount_and_prices(
    deposit_amount: u64,
    is_yes: bool,
    yes_reserve: u64,
    no_reserve: u64,
) -> (r: Result<(u64, u128, u128), BettingError>)
    ensures
        match r {
            Ok((tokens, yes_price, no_price)) => {
                &&& mintable(deposit_amount, is_yes, yes_reserve, no_reserve)
                &&& tokens == tokens_for(deposit_amount, is_yes, yes_reserve, no_reserve)
                &&& yes_price == price_yes(yes_reserve, no_reserve)
                &&& no_price == price_no(yes_reserve, no_reserve)
            },
            Err(e) => {
                &&& e == BettingError::MathOverflow
                &&& !mintable(deposit_amount, is_yes, yes_reserve, no_reserve)
            },
        },
{
    let virtual_yes: u128 = (yes_reserve as u128) + (VIRTUAL_AMOUNT as u128);
    let virtual_no: u128 = (no_reserve as u128) + (VIRTUAL_AMOUNT as u128);
    let denom: u128 = virtual_yes + virtual_no;
    assert(virtual_yes * PRICE_SCALE <= u128::MAX) by (nonlinear_arith)
        requires virtual_yes <= 0x1_0000_0000_0000_0000 + 1_000_000_000;
    assert(virtual_no * PRICE_SCALE <= u128::MAX) by (nonlinear_arith)
        requires virtual_no <= 0x1_0000_0000_0000_0000 + 1_000_000_000;
    let yes_price: u128 = virtual_yes * PRICE_SCALE / denom;
    let no_price: u128 = virtual_no * PRICE_SCALE / denom;
    let selected_price = if is_yes { yes_price } else { no_price };
    if selected_price == 0 {
        return Err(BettingError::MathOverflow);
    }
    assert((deposit_amount as u128) * PRICE_SCALE <= u128::MAX) by (nonlinear_arith)
        requires deposit_amount <= u64::MAX;
    let minted: u128 = (deposit_amount as u128) * PRICE_SCALE / selected_price;
    if minted > u64::MAX as u128 {
        return Err(BettingError::MathOverflow);
    }
    Ok((minted as u64, yes_price, no_price))
}

} // verus!
