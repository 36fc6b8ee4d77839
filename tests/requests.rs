use stablecoin::{
    check_staleness, process_mint, process_redeem, redemption_amount, tokens_to_mint,
    validate_observation, validate_price, Address, OraclePrice, StablecoinConfig, StablecoinError,
};

fn key(n: u8) -> Address {
    Address::new([n; 32])
}

fn config_with(minter: Address, supply: u64, last_price: i64) -> StablecoinConfig {
    let mut c = StablecoinConfig::new(
        "Coin".to_string(),
        "C".to_string(),
        "uri".to_string(),
        "USD".to_string(),
        minter,
        key(200),
    );
    c.total_supply = supply;
    c.last_oracle_price = last_price;
    c
}

fn obs(price: i64, confidence: u64, at: i64) -> Option<OraclePrice> {
    Some(OraclePrice { price, confidence, last_update_timestamp: at })
}

#[test]
fn mint_at_par_succeeds() {
    let m = key(1);
    let mut config = config_with(m, 5_000, 1_000_000);
    let before = config.clone();
    let plan = process_mint(&mut config, &m, true, 1000, obs(1_000_000, 5_000, 900), 1000).unwrap();
    assert_eq!(plan.tokens_to_mint, 1000);
    assert_eq!(config.total_supply, before.total_supply + 1000);
    assert_eq!(plan.update.total_supply, 6_000);
    assert_eq!(config.last_oracle_price, 1_000_000);
    assert_eq!(config.last_update_timestamp, 1000);
}

#[test]
fn wide_confidence_refused() {
    let m = key(1);
    let mut config = config_with(m, 5_000, 1_000_000);
    let r = process_mint(&mut config, &m, true, 1000, obs(1_000_000, 20_000, 900), 1000);
    assert_eq!(r, Err(StablecoinError::PriceUncertain));
    assert_eq!(config.total_supply, 5_000);
    assert_eq!(validate_price(1_000_000, 1_000_000, 20_000), Err(StablecoinError::PriceUncertain));
}

#[test]
fn large_price_jump_refused() {
    let m = key(1);
    let mut config = config_with(m, 5_000, 1_000_000);
    let r = process_mint(&mut config, &m, true, 1000, obs(1_100_000, 0, 900), 1000);
    assert_eq!(r, Err(StablecoinError::PriceDeviationTooHigh));
    assert_eq!(config.last_oracle_price, 1_000_000);
}

#[test]
fn old_observation_refused() {
    let m = key(1);
    let mut config = config_with(m, 5_000, 1_000_000);
    let r = process_mint(&mut config, &m, true, 1000, obs(1_000_000, 5_000, 600), 1000);
    assert_eq!(r, Err(StablecoinError::StaleOracleData));
    let r = process_redeem(&mut config, true, 10, obs(1_000_000, 5_000, 600), 1000);
    assert_eq!(r, Err(StablecoinError::StaleOracleData));
    assert_eq!(config.total_supply, 5_000);
}

#[test]
fn over_limit_refused_before_oracle() {
    let m = key(1);
    let mut config = config_with(m, 5_000, 1_000_000);
    let r = process_mint(&mut config, &m, true, 1_000_001, None, 1000);
    assert_eq!(r, Err(StablecoinError::MintLimitExceeded));
    let r = process_mint(&mut config, &m, true, 1_000_000, None, 1000);
    assert_eq!(r, Err(StablecoinError::InvalidOracleData));
}

#[test]
fn unsigned_redeem_refused() {
    let m = key(1);
    let mut config = config_with(m, 5_000, 1_000_000);
    let r = process_redeem(&mut config, false, 100, obs(1_000_000, 0, 900), 1000);
    assert_eq!(r, Err(StablecoinError::Unauthorized));
    assert_eq!(config.total_supply, 5_000);
}

#[test]
fn mint_overflow_leaves_supply() {
    let m = key(1);
    let mut config = config_with(m, u64::MAX - 10, 1_000_000);
    let r = process_mint(&mut config, &m, true, 11, obs(1_000_000, 0, 900), 1000);
    assert_eq!(r, Err(StablecoinError::InvalidAmount));
    assert_eq!(config.total_supply, u64::MAX - 10);
    let ok = process_mint(&mut config, &m, true, 10, obs(1_000_000, 0, 900), 1000).unwrap();
    assert_eq!(ok.update.total_supply, u64::MAX);
}

#[test]
fn redeem_underflow_leaves_supply() {
    let m = key(1);
    let mut config = config_with(m, 100, 1_000_000);
    let r = process_redeem(&mut config, true, 101, obs(1_000_000, 0, 900), 1000);
    assert_eq!(r, Err(StablecoinError::InvalidAmount));
    assert_eq!(config.total_supply, 100);
    let plan = process_redeem(&mut config, true, 100, obs(1_020_000, 0, 900), 1000).unwrap();
    assert_eq!(plan.redemption_amount, 102);
    assert_eq!(config.total_supply, 0);
    assert_eq!(config.last_oracle_price, 1_020_000);
}

#[test]
fn first_observation_skips_deviation() {
    let m = key(1);
    let mut config = config_with(m, 0, 0);
    let plan = process_mint(&mut config, &m, true, 1000, obs(2_000_000, 0, 900), 1000).unwrap();
    assert_eq!(plan.tokens_to_mint, 500);
    assert_eq!(validate_price(50_000_000, 0, 0), Ok(()));
    assert_eq!(validate_price(1_060_000, 1_000_000, 0), Err(StablecoinError::PriceDeviationTooHigh));
    assert_eq!(validate_price(1_050_000, 1_000_000, 0), Ok(()));
    assert_eq!(validate_price(950_000, 1_000_000, 0), Ok(()));
}

#[test]
fn pause_takes_precedence() {
    let m = key(1);
    let mut config = config_with(m, 100, 1_000_000);
    config.is_paused = true;
    let r = process_mint(&mut config, &m, true, 1000, obs(1_000_000, 0, 900), 1000);
    assert_eq!(r, Err(StablecoinError::ProgramPaused));
    let r = process_redeem(&mut config, true, 10, obs(1_000_000, 0, 900), 1000);
    assert_eq!(r, Err(StablecoinError::ProgramPaused));
    assert_eq!(config.total_supply, 100);
}

#[test]
fn confidence_gate_edges() {
    assert_eq!(validate_price(1_000_000, 0, 10_000), Ok(()));
    assert_eq!(validate_price(1_000_000, 0, 10_001), Err(StablecoinError::PriceUncertain));
    assert_eq!(validate_price(-1_000_000, 0, 10_000), Ok(()));
    assert_eq!(validate_price(0, 0, 1), Err(StablecoinError::PriceUncertain));
    assert_eq!(validate_price(0, 0, 0), Ok(()));
}

#[test]
fn staleness_edges() {
    assert_eq!(check_staleness(1300, 1000), Ok(()));
    assert_eq!(check_staleness(1301, 1000), Err(StablecoinError::StaleOracleData));
    assert_eq!(check_staleness(i64::MAX, i64::MIN), Err(StablecoinError::StaleOracleData));
    assert_eq!(check_staleness(i64::MIN, i64::MAX), Ok(()));
}

#[test]
fn observation_gate_order() {
    assert_eq!(validate_observation(None, 0, 0), Err(StablecoinError::InvalidOracleData));
    assert_eq!(validate_observation(obs(1_000_000, 20_000, 0), 0, 1000), Err(StablecoinError::PriceUncertain));
    assert_eq!(validate_observation(obs(1_000_000, 0, 0), 0, 1000), Err(StablecoinError::StaleOracleData));
    assert_eq!(validate_observation(obs(1_000_000, 0, 900), 0, 1000), Ok(1_000_000));
}

#[test]
fn conversion_formulas() {
    assert_eq!(tokens_to_mint(1000, 1_000_000), 1000);
    assert_eq!(tokens_to_mint(1000, 3_000_000), 333);
    assert_eq!(tokens_to_mint(1000, 500_000), 2000);
    assert_eq!(tokens_to_mint(1000, -1_000_000), 0);
    assert_eq!(tokens_to_mint(1000, 0), u64::MAX);
    assert_eq!(tokens_to_mint(0, 0), 0);
    assert_eq!(tokens_to_mint(u64::MAX, 1), u64::MAX);
    assert_eq!(redemption_amount(1000, 1_500_000), 1500);
    assert_eq!(redemption_amount(3, 333_333), 0);
    assert_eq!(redemption_amount(1000, -5), 0);
    assert_eq!(redemption_amount(u64::MAX, i64::MAX), u64::MAX);
}

#[test]
fn error_codes_follow_taxonomy() {
    assert_eq!(StablecoinError::InvalidOracleData.code(), 0);
    assert_eq!(StablecoinError::InvalidAmount.code(), 3);
    assert_eq!(StablecoinError::ProgramPaused.code(), 15);
    assert_eq!(StablecoinError::InvalidOraclePriceFeed.code(), 26);
}

#[test]
fn minter_membership() {
    let m = key(1);
    let mut config = config_with(m, 0, 0);
    config.authorized_minters.push(key(5));
    assert!(config.is_authorized_minter(&key(5)));
    assert!(config.is_authorized_minter(&m));
    assert!(!config.is_authorized_minter(&key(6)));
    let mut other = [1u8; 32];
    other[31] = 2;
    assert!(!config.is_authorized_minter(&Address::new(other)));
    assert!(key(3) == key(3));
    assert!(Address::new(other) != key(1));
}
