use vstd::prelude::*;

use crate::address::Address;
use crate::config::{RecordUpdate, StablecoinConfig};
use crate::error::StablecoinError;
use crate::oracle::{observation_verdict, validate_observation, OraclePrice};
use crate::supply::{
    checked_mint_supply, checked_redeem_supply, mint_quantity, redemption_amount,
    redemption_value, supply_after_mint, supply_after_redeem, tokens_to_mint, MINT_LIMIT,
};

verus! {

/// What an accepted mint settles externally and writes into the record.
#[derive(Debug, Clone, Copy, PartialEq, Eq, Structural)]
pub struct MintPlan {
    /// Tokens to issue to the recipient.
    pub tokens_to_mint: u64,
    pub update: RecordUpdate,
}

/// What an accepted redemption settles externally and writes into the record.
#[derive(Debug, Clone, Copy, PartialEq, Eq, Structural)]
pub struct RedeemPlan {
    /// Tokens to burn from the holder.
    pub burn_amount: u64,
    /// Fiat units owed to the holder, paid out by an outside settlement channel.
    pub redemption_amount: u64,
    pub update: RecordUpdate,
}

/// Pause gate, then minter authorization, then the per-request limit.
pub open spec fn mint_authorization(
    config: StablecoinConfig,
    caller: Address,
    caller_is_signer: bool,
    amount: u64,
) -> Result<(), StablecoinError> {
    if config.is_paused {
        Err(StablecoinError::ProgramPaused)
    } else if !(caller_is_signer && config.authorized_minters@.contains(caller)) {
        Err(StablecoinError::UnauthorizedMinter)
    } else if amount > MINT_LIMIT {
        Err(StablecoinError::MintLimitExceeded)
    } else {
        Ok(())
    }
}

/// Pause gate, then the holder's signature.
pub open spec fn redeem_authorization(config: StablecoinConfig, caller_is_signer: bool) -> Result<
    (),
    StablecoinError,
> {
    if config.is_paused {
        Err(StablecoinError::ProgramPaused)
    } else if !caller_is_signer {
        Err(StablecoinError::Unauthorized)
    } else {
        Ok(())
    }
}

/// The outcome of a mint request: authorization, the oracle gate, then the
/// overflow-checked supply increase by `amount / price` tokens.
pub open spec fn mint_outcome(
    config: StablecoinConfig,
    caller: Address,
    caller_is_signer: bool,
    amount: u64,
    observation: Option<OraclePrice>,
    now: i64,
) -> Result<MintPlan, StablecoinError> {
    match mint_authorization(config, caller, caller_is_signer, amount) {
        Err(e) => Err(e),
        Ok(_) => match observation_verdict(observation, config.last_oracle_price, now) {
            Err(e) => Err(e),
            Ok(price) => {
                let tokens = mint_quantity(amount as int, price as int);
                match supply_after_mint(config.total_supply as int, tokens) {
                    Err(e) => Err(e),
                    Ok(supply) => Ok(
                        MintPlan {
                            tokens_to_mint: tokens as u64,
                            update: RecordUpdate {
                                total_supply: supply,
                                last_oracle_price: price,
                                last_update_timestamp: now,
                            },
                        },
                    ),
                }
            },
        },
    }
}

/// The outcome of a redemption: authorization, the oracle gate, then the
/// underflow-checked supply decrease by `amount`.
pub open spec fn redeem_outcome(
    config: StablecoinConfig,
    caller_is_signer: bool,
    amount: u64,
    observation: Option<OraclePrice>,
    now: i64,
) -> Result<RedeemPlan, StablecoinError> {
    match redeem_authorization(config, caller_is_signer) {
        Err(e) => Err(e),
        Ok(_) => match observation_verdict(observation, config.last_oracle_price, now) {
            Err(e) => Err(e),
            Ok(price) => match supply_after_redeem(config.total_supply as int, amount as int) {
                Err(e) => Err(e),
                Ok(supply) => Ok(
                    RedeemPlan {
                        burn_amount: amount,
                        redemption_amount: redemption_value(amount as int, price as int) as u64,
                        update: RecordUpdate {
                            total_supply: supply,
                            last_oracle_price: price,
                            last_update_timestamp: now,
                        },
                    },
                ),
            },
        },
    }
}

/// The checks of a mint request that come before the oracle is consulted.
pub fn authorize_mint(
    config: &StablecoinConfig,
    caller: &Address,
    caller_is_signer: bool,
    amount: u64,
) -> (r: Result<(), StablecoinError>)
    ensures
        r == mint_authorization(*config, *caller, caller_is_signer, amount),
{
    if config.is_paused {
        return Err(StablecoinError::ProgramPaused);
    }
    if !caller_is_signer || !config.is_authorized_minter(caller) {
        return Err(StablecoinError::UnauthorizedMinter);
    }
    if amount > MINT_LIMIT {
        return Err(StablecoinError::MintLimitExceeded);
    }
    Ok(())
}

/// The checks of a redemption that come before the oracle is consulted.
pub fn authorize_redeem(config: &StablecoinConfig, caller_is_signer: bool) -> (r: Result<
    (),
    StablecoinError,
>)
    ensures
        r == redeem_authorization(*config, caller_is_signer),
{
    if config.is_paused {
        return Err(StablecoinError::ProgramPaused);
    }
    if !caller_is_signer {
        return Err(StablecoinError::Unauthorized);
    }
    Ok(())
}

/// Decides a mint request and, when it is accepted, writes the new supply and
/// the accepted price and time into `config`. The returned plan names the
/// tokens to issue; a refused request leaves `config` as it was.
pub fn process_mint(
    config: &mut StablecoinConfig,
    caller: &Address,
    caller_is_signer: bool,
    amount: u64,
    observation: Option<OraclePrice>,
    now: i64,
) -> (r: Result<MintPlan, StablecoinError>)
    ensures
        r == mint_outcome(*old(config), *caller, caller_is_signer, amount, observation, now),
        match r {
            Ok(plan) => *final(config) == old(config).updated(plan.update),
            Err(_) => *final(config) == *old(config),
        },
{
    authorize_mint(config, caller, caller_is_signer, amount)?;
    let price = validate_observation(observation, config.last_oracle_price, now)?;
    let tokens = tokens_to_mint(amount, price);
    let supply = checked_mint_supply(config.total_supply, tokens)?;
    let update = RecordUpdate {
        total_supply: supply,
        last_oracle_price: price,
        last_update_timestamp: now,
    };
    config.apply(update);
    Ok(MintPlan { tokens_to_mint: tokens, update })
}

/// Decides a redemption and, when it is accepted, writes the new supply and
/// the accepted price and time into `config`. The returned plan names the
/// tokens to burn and the fiat owed; a refused request leaves `config` as it was.
pub fn process_redeem(
    config: &mut StablecoinConfig,
    caller_is_signer: bool,
    amount: u64,
    observation: Option<OraclePrice>,
    now: i64,
) -> (r: Result<RedeemPlan, StablecoinError>)
    ensures
        r == redeem_outcome(*old(config), caller_is_signer, amount, observation, now),
        match r {
            Ok(plan) => *final(config) == old(config).updated(plan.update),
            Err(_) => *final(config) == *old(config),
        },
{
    authorize_redeem(config, caller_is_signer)?;
    let price = validate_observation(observation, config.last_oracle_price, now)?;
    let owed = redemption_amount(amount, price);
    let supply = checked_redeem_supply(config.total_supply, amount)?;
    let update = RecordUpdate {
        total_supply: supply,
        last_oracle_price: price,
        last_update_timestamp: now,
    };
    config.apply(update);
    Ok(RedeemPlan { burn_amount: amount, redemption_amount: owed, update })
}

} // verus!
