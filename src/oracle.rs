use vstd::prelude::*;

use crate::error::StablecoinError;

verus! {

/// Prices are fixed-point numbers: a stored price `p` stands for `p / PRICE_SCALE`
/// currency units per token.
pub const PRICE_SCALE: u64 = 1_000_000;

/// Largest accepted age of an observation, in the time source's units.
pub const ORACLE_STALENESS_THRESHOLD: i64 = 300;

/// Largest accepted confidence interval, in percent of the price's magnitude.
pub const PRICE_CONF_PERCENTAGE: u64 = 1;

/// Largest accepted change from the last accepted price, in percent of it.
pub const MAX_PRICE_DEVIATION: u64 = 5;

/// One price observation published by the external feed.
#[derive(Debug, Clone, Copy, PartialEq, Eq, Structural)]
pub struct OraclePrice {
    /// Fixed-point price (see [`PRICE_SCALE`]).
    pub price: i64,
    /// Absolute error bound on `price`, on the same scale.
    pub confidence: u64,
    /// When the observation was produced.
    pub last_update_timestamp: i64,
}

pub open spec fn abs(x: int) -> int {
    if x < 0 { -x } else { x }
}

/// `confidence / |price|` exceeds the allowed fraction. A zero price with a
/// positive confidence is infinitely uncertain; a zero price with zero
/// confidence is not.
pub open spec fn too_uncertain(price: int, confidence: int) -> bool {
    confidence * 100 > abs(price) * PRICE_CONF_PERCENTAGE
}

/// `|price - last_price| / last_price` exceeds the allowed fraction, where a
/// prior price is known (`last_price > 0`).
pub open spec fn deviates_too_far(price: int, last_price: int) -> bool {
    last_price > 0 && abs(price - last_price) * 100 > last_price * MAX_PRICE_DEVIATION
}

/// The observation produced at `observed_at` is too old at time `now`.
pub open spec fn is_stale(now: int, observed_at: int) -> bool {
    now - observed_at > ORACLE_STALENESS_THRESHOLD
}

/// The confidence check, then the deviation check.
pub open spec fn price_verdict(price: int, last_price: int, confidence: int) -> Result<
    (),
    StablecoinError,
> {
    if too_uncertain(price, confidence) {
        Err(StablecoinError::PriceUncertain)
    } else if deviates_too_far(price, last_price) {
        Err(StablecoinError::PriceDeviationTooHigh)
    } else {
        Ok(())
    }
}

/// The whole oracle gate: shape, confidence, deviation, staleness, in that
/// order. On success, the accepted price.
pub open spec fn observation_verdict(
    observation: Option<OraclePrice>,
    last_price: i64,
    now: i64,
) -> Result<i64, StablecoinError> {
    match observation {
        None => Err(StablecoinError::InvalidOracleData),
        Some(o) => match price_verdict(o.price as int, last_price as int, o.confidence as int) {
            Err(e) => Err(e),
            Ok(_) => if is_stale(now as int, o.last_update_timestamp as int) {
                Err(StablecoinError::StaleOracleData)
            } else {
                Ok(o.price)
            },
        },
    }
}

fn magnitude(x: i128) -> (r: i128)
    requires
        x > i128::MIN,
    ensures
        r == abs(x as int),
{
    if x < 0 {
        -x
    } else {
        x
    }
}

/// Checks a price against its confidence interval and against the last
/// accepted price.
pub fn validate_price(current_price: i64, last_price: i64, confidence: u64) -> (r: Result<
    (),
    StablecoinError,
>)
    ensures
        r == price_verdict(current_price as int, last_price as int, confidence as int),
{
    let price_magnitude = magnitude(current_price as i128);
    assert(0 <= price_magnitude * (PRICE_CONF_PERCENTAGE as i128) <= 0x8000_0000_0000_0000) by (
        nonlinear_arith)
        requires
            0 <= price_magnitude <= 0x8000_0000_0000_0000,
            PRICE_CONF_PERCENTAGE == 1,
    ;
    if (confidence as i128) * 100 > price_magnitude * (PRICE_CONF_PERCENTAGE as i128) {
        return Err(StablecoinError::PriceUncertain);
    }
    if last_price > 0 {
        let change = magnitude(current_price as i128 - last_price as i128);
        assert(0 <= (last_price as i128) * (MAX_PRICE_DEVIATION as i128) <= 0x8000_0000_0000_0000
            * 5) by (nonlinear_arith)
            requires
                0 < last_price <= 0x8000_0000_0000_0000,
                MAX_PRICE_DEVIATION == 5,
        ;
        if change * 100 > (last_price as i128) * (MAX_PRICE_DEVIATION as i128) {
            return Err(StablecoinError::PriceDeviationTooHigh);
        }
    }
    Ok(())
}

/// Refuses an observation produced more than the staleness threshold before `now`.
pub fn check_staleness(now: i64, observed_at: i64) -> (r: Result<(), StablecoinError>)
    ensures
        r is Err <==> is_stale(now as int, observed_at as int),
        r is Err ==> r == Err::<(), StablecoinError>(StablecoinError::StaleOracleData),
{
    if (now as i128) - (observed_at as i128) > ORACLE_STALENESS_THRESHOLD as i128 {
        Err(StablecoinError::StaleOracleData)
    } else {
        Ok(())
    }
}

/// Runs the oracle gate on an observation (`None` when the feed's record could
/// not be read) and returns the accepted price.
pub fn validate_observation(observation: Option<OraclePrice>, last_price: i64, now: i64) -> (r:
    Result<i64, StablecoinError>)
    ensures
        r == observation_verdict(observation, last_price, now),
{
    match observation {
        None => Err(StablecoinError::InvalidOracleData),
        Some(o) => {
            validate_price(o.price, last_price, o.confidence)?;
            check_staleness(now, o.last_update_timestamp)?;
            Ok(o.price)
        },
    }
}

} // verus!
