use vstd::prelude::*;

use crate::error::StablecoinError;
use crate::oracle::PRICE_SCALE;

verus! {

/// Largest fiat amount accepted by one mint request.
pub const MINT_LIMIT: u64 = 1_000_000;

/// A non-negative quantity clamped to the token amount type.
pub open spec fn saturate(x: int) -> int {
    if x > u64::MAX { u64::MAX as int } else { x }
}

/// Tokens issued for `amount` fiat units at fixed-point `price`: the quotient
/// `amount / price` truncated toward zero and clamped to the amount type. A
/// negative quotient issues nothing; dividing a positive amount by a zero
/// price gives the largest count.
pub open spec fn mint_quantity(amount: int, price: int) -> int {
    if price > 0 {
        saturate((amount * PRICE_SCALE) / price)
    } else if price == 0 && amount > 0 {
        u64::MAX as int
    } else {
        0
    }
}

/// Fiat units owed for redeeming `amount` tokens at fixed-point `price`: the
/// product `amount * price` truncated toward zero and clamped to the amount
/// type; nothing at a price that is not positive.
pub open spec fn redemption_value(amount: int, price: int) -> int {
    if price > 0 {
        saturate((amount * price) / (PRICE_SCALE as int))
    } else {
        0
    }
}

/// The supply after issuing `tokens`, or `InvalidAmount` where it would not fit.
pub open spec fn supply_after_mint(total_supply: int, tokens: int) -> Result<u64, StablecoinError> {
    if total_supply + tokens > u64::MAX {
        Err(StablecoinError::InvalidAmount)
    } else {
        Ok((total_supply + tokens) as u64)
    }
}

/// The supply after burning `amount`, or `InvalidAmount` where more would be
/// burnt than is outstanding.
pub open spec fn supply_after_redeem(total_supply: int, amount: int) -> Result<u64, StablecoinError> {
    if amount > total_supply {
        Err(StablecoinError::InvalidAmount)
    } else {
        Ok((total_supply - amount) as u64)
    }
}

fn clamp_u128(x: u128) -> (r: u64)
    ensures
        r == saturate(x as int),
{
    if x > u64::MAX as u128 {
        u64::MAX
    } else {
        x as u64
    }
}

/// Tokens to issue for a fiat `amount` at the accepted `price`.
pub fn tokens_to_mint(amount: u64, price: i64) -> (r: u64)
    ensures
        r == mint_quantity(amount as int, price as int),
{
    if price > 0 {
        assert((amount as int) * (PRICE_SCALE as int) <= u64::MAX * 1_000_000) by (nonlinear_arith)
            requires
                amount <= u64::MAX,
                PRICE_SCALE == 1_000_000,
        ;
        let scaled: u128 = (amount as u128) * (PRICE_SCALE as u128);
        clamp_u128(scaled / (price as u128))
    } else if price == 0 && amount > 0 {
        u64::MAX
    } else {
        0
    }
}

/// Fiat units owed for redeeming `amount` tokens at the accepted `price`.
pub fn redemption_amount(amount: u64, price: i64) -> (r: u64)
    ensures
        r == redemption_value(amount as int, price as int),
{
    if price > 0 {
        assert((amount as int) * (price as int) <= u64::MAX * i64::MAX) by (nonlinear_arith)
            requires
                amount <= u64::MAX,
                0 < price <= i64::MAX,
        ;
        let product: u128 = (amount as u128) * (price as u128);
        clamp_u128(product / (PRICE_SCALE as u128))
    } else {
        0
    }
}

/// Overflow-checked supply increase.
pub fn checked_mint_supply(total_supply: u64, tokens: u64) -> (r: Result<u64, StablecoinError>)
    ensures
        r == supply_after_mint(total_supply as int, tokens as int),
{
    match total_supply.checked_add(tokens) {
        Some(s) => Ok(s),
        None => Err(StablecoinError::InvalidAmount),
    }
}

/// Underflow-checked supply decrease.
pub fn checked_redeem_supply(total_supply: u64, amount: u64) -> (r: Result<u64, StablecoinError>)
    ensures
        r == supply_after_redeem(total_supply as int, amount as int),
{
    match total_supply.checked_sub(amount) {
        Some(s) => Ok(s),
        None => Err(StablecoinError::InvalidAmount),
    }
}

} // verus!
