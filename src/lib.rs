//! Price-validated issuance and redemption controller for a collateral-pegged token.
pub mod address;
pub mod config;
pub mod error;
pub mod instruction;
pub mod laws;
pub mod oracle;
pub mod processor;
pub mod supply;

pub use address::{contains_address, Address};
pub use config::{RecordUpdate, StablecoinConfig};
pub use error::StablecoinError;
pub use instruction::StablecoinInstruction;
pub use oracle::{check_staleness, validate_observation, validate_price, OraclePrice};
pub use processor::{
    authorize_mint, authorize_redeem, process_mint, process_redeem, MintPlan, RedeemPlan,
};
pub use supply::{redemption_amount, tokens_to_mint, MINT_LIMIT};
