use vstd::prelude::*;

verus! {

/// The requests the controller serves.
#[derive(Debug, Clone)]
pub enum StablecoinInstruction {
    /// Create a fresh configuration record.
    Initialize { name: String, symbol: String, icon_uri: String, target_currency: String },
    /// Issue tokens for `amount` fiat units.
    Mint { amount: u64 },
    /// Burn `amount` tokens.
    Redeem { amount: u64 },
}

} // verus!
