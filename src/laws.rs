//! Properties of the request pipeline, stated over the outcome functions that
//! `process_mint` and `process_redeem` are proved to compute.
use vstd::prelude::*;

use crate::address::Address;
use crate::config::StablecoinConfig;
use crate::error::StablecoinError;
use crate::oracle::{
    deviates_too_far, is_stale, observation_verdict, price_verdict, too_uncertain, OraclePrice,
};
use crate::processor::{
    mint_authorization, mint_outcome, redeem_authorization, redeem_outcome, MintPlan, RedeemPlan,
};
use crate::supply::mint_quantity;

verus! {

/// A mint that passes authorization and the oracle gate, but whose tokens
/// would push the supply past the largest representable amount, is refused
/// with `InvalidAmount` (and `process_mint` then leaves the record unchanged).
pub proof fn lemma_mint_overflow_refused(
    config: StablecoinConfig,
    caller: Address,
    caller_is_signer: bool,
    amount: u64,
    observation: Option<OraclePrice>,
    now: i64,
)
    requires
        mint_authorization(config, caller, caller_is_signer, amount) is Ok,
        observation_verdict(observation, config.last_oracle_price, now) is Ok,
        config.total_supply + mint_quantity(
            amount as int,
            observation_verdict(observation, config.last_oracle_price, now)->Ok_0 as int,
        ) > u64::MAX,
    ensures
        mint_outcome(config, caller, caller_is_signer, amount, observation, now) == Err::<
            MintPlan,
            StablecoinError,
        >(StablecoinError::InvalidAmount),
{
}

/// A redemption of more than is outstanding that passes authorization and
/// the oracle gate is refused with `InvalidAmount` (and `process_redeem` then
/// leaves the record unchanged).
pub proof fn lemma_redeem_underflow_refused(
    config: StablecoinConfig,
    caller_is_signer: bool,
    amount: u64,
    observation: Option<OraclePrice>,
    now: i64,
)
    requires
        redeem_authorization(config, caller_is_signer) is Ok,
        observation_verdict(observation, config.last_oracle_price, now) is Ok,
        amount > config.total_supply,
    ensures
        redeem_outcome(config, caller_is_signer, amount, observation, now) == Err::<
            RedeemPlan,
            StablecoinError,
        >(StablecoinError::InvalidAmount),
{
}

/// An observation whose price passes the confidence and deviation checks but
/// which is older than the staleness threshold is refused with
/// `StaleOracleData`, whatever the amount, supply or caller of an authorized
/// request.
pub proof fn lemma_stale_observation_refused(
    config: StablecoinConfig,
    caller: Address,
    caller_is_signer: bool,
    amount: u64,
    observation: OraclePrice,
    now: i64,
)
    requires
        price_verdict(
            observation.price as int,
            config.last_oracle_price as int,
            observation.confidence as int,
        ) is Ok,
        is_stale(now as int, observation.last_update_timestamp as int),
    ensures
        observation_verdict(Some(observation), config.last_oracle_price, now) == Err::<
            i64,
            StablecoinError,
        >(StablecoinError::StaleOracleData),
        mint_authorization(config, caller, caller_is_signer, amount) is Ok ==> mint_outcome(
            config,
            caller,
            caller_is_signer,
            amount,
            Some(observation),
            now,
        ) == Err::<MintPlan, StablecoinError>(StablecoinError::StaleOracleData),
        redeem_authorization(config, caller_is_signer) is Ok ==> redeem_outcome(
            config,
            caller_is_signer,
            amount,
            Some(observation),
            now,
        ) == Err::<RedeemPlan, StablecoinError>(
            StablecoinError::StaleOracleData,
        ),
{
}

/// An observation whose confidence exceeds the allowed fraction of its
/// price's magnitude is refused with `PriceUncertain`, and so is every
/// authorized request that uses it.
pub proof fn lemma_uncertain_price_refused(
    config: StablecoinConfig,
    caller: Address,
    caller_is_signer: bool,
    amount: u64,
    observation: OraclePrice,
    now: i64,
)
    requires
        too_uncertain(observation.price as int, observation.confidence as int),
    ensures
        observation_verdict(Some(observation), config.last_oracle_price, now) == Err::<
            i64,
            StablecoinError,
        >(StablecoinError::PriceUncertain),
        mint_authorization(config, caller, caller_is_signer, amount) is Ok ==> mint_outcome(
            config,
            caller,
            caller_is_signer,
            amount,
            Some(observation),
            now,
        ) == Err::<MintPlan, StablecoinError>(StablecoinError::PriceUncertain),
        redeem_authorization(config, caller_is_signer) is Ok ==> redeem_outcome(
            config,
            caller_is_signer,
            amount,
            Some(observation),
            now,
        ) == Err::<RedeemPlan, StablecoinError>(StablecoinError::PriceUncertain),
{
}

/// With no prior accepted price, no price is refused for deviating, and no
/// request fails with `PriceDeviationTooHigh`.
pub proof fn lemma_first_observation_skips_deviation(
    config: StablecoinConfig,
    caller: Address,
    caller_is_signer: bool,
    amount: u64,
    observation: Option<OraclePrice>,
    now: i64,
    price: i64,
    confidence: u64,
)
    requires
        config.last_oracle_price == 0,
    ensures
        !deviates_too_far(price as int, 0),
        price_verdict(price as int, 0, confidence as int) != Err::<(), StablecoinError>(
            StablecoinError::PriceDeviationTooHigh,
        ),
        mint_outcome(config, caller, caller_is_signer, amount, observation, now) != Err::<
            MintPlan,
            StablecoinError,
        >(StablecoinError::PriceDeviationTooHigh),
        redeem_outcome(config, caller_is_signer, amount, observation, now) != Err::<
            RedeemPlan,
            StablecoinError,
        >(StablecoinError::PriceDeviationTooHigh),
{
}

/// A paused record refuses every mint and every redemption with
/// `ProgramPaused`, whatever the other inputs.
pub proof fn lemma_pause_takes_precedence(
    config: StablecoinConfig,
    caller: Address,
    caller_is_signer: bool,
    amount: u64,
    observation: Option<OraclePrice>,
    now: i64,
)
    requires
        config.is_paused,
    ensures
        mint_outcome(config, caller, caller_is_signer, amount, observation, now) == Err::<
            MintPlan,
            StablecoinError,
        >(StablecoinError::ProgramPaused),
        redeem_outcome(config, caller_is_signer, amount, observation, now) == Err::<
            RedeemPlan,
            StablecoinError,
        >(StablecoinError::ProgramPaused),
{
}

/// A request refused before the oracle is consulted (paused, unauthorized,
/// over the mint limit) fails the same way whatever observation and time
/// come with it.
pub proof fn lemma_refusal_before_oracle_ignores_it(
    config: StablecoinConfig,
    caller: Address,
    caller_is_signer: bool,
    amount: u64,
    observation: Option<OraclePrice>,
    now: i64,
)
    ensures
        mint_authorization(config, caller, caller_is_signer, amount) is Err ==> mint_outcome(
            config,
            caller,
            caller_is_signer,
            amount,
            observation,
            now,
        ) == Err::<MintPlan, StablecoinError>(
            mint_authorization(config, caller, caller_is_signer, amount)->Err_0,
        ),
        redeem_authorization(config, caller_is_signer) is Err ==> redeem_outcome(
            config,
            caller_is_signer,
            amount,
            observation,
            now,
        ) == Err::<RedeemPlan, StablecoinError>(
            redeem_authorization(config, caller_is_signer)->Err_0,
        ),
{
}

} // verus!
