use vstd::prelude::*;

use crate::address::{contains_address, Address};

verus! {

/// The persisted configuration record of one issued token.
#[derive(Debug, Clone)]
pub struct StablecoinConfig {
    pub name: String,
    pub symbol: String,
    pub icon_uri: String,
    pub target_currency: String,
    pub mint_authority: Address,
    pub oracle_pubkey: Address,
    /// Tokens outstanding.
    pub total_supply: u64,
    /// Reserved; stored but not enforced.
    pub collateral_ratio: u64,
    /// Last accepted fixed-point price; zero when none was accepted yet.
    pub last_oracle_price: i64,
    pub last_update_timestamp: i64,
    pub admin_authority: Address,
    pub oracle_authority: Address,
    pub fee_collector: Address,
    pub is_paused: bool,
    /// Identities allowed to mint; only membership matters.
    pub authorized_minters: Vec<Address>,
}

/// The fields that an accepted mint or redemption rewrites.
#[derive(Debug, Clone, Copy, PartialEq, Eq, Structural)]
pub struct RecordUpdate {
    pub total_supply: u64,
    pub last_oracle_price: i64,
    pub last_update_timestamp: i64,
}

impl StablecoinConfig {
    /// The record with `u` written over supply, price and timestamp, every
    /// other field as it was.
    pub open spec fn updated(self, u: RecordUpdate) -> StablecoinConfig {
        StablecoinConfig {
            total_supply: u.total_supply,
            last_oracle_price: u.last_oracle_price,
            last_update_timestamp: u.last_update_timestamp,
            ..self
        }
    }

    /// A fresh record: no supply, no prior price, not paused, and every role
    /// held by `mint_authority`, which is also the only authorized minter.
    pub fn new(
        name: String,
        symbol: String,
        icon_uri: String,
        target_currency: String,
        mint_authority: Address,
        oracle_pubkey: Address,
    ) -> (r: StablecoinConfig)
        ensures
            r.name == name,
            r.symbol == symbol,
            r.icon_uri == icon_uri,
            r.target_currency == target_currency,
            r.mint_authority == mint_authority,
            r.oracle_pubkey == oracle_pubkey,
            r.total_supply == 0,
            r.collateral_ratio == 0,
            r.last_oracle_price == 0,
            r.last_update_timestamp == 0,
            r.admin_authority == mint_authority,
            r.oracle_authority == mint_authority,
            r.fee_collector == mint_authority,
            !r.is_paused,
            r.authorized_minters@ == seq![mint_authority],
    {
        let mut authorized_minters: Vec<Address> = Vec::new();
        authorized_minters.push(mint_authority);
        StablecoinConfig {
            name,
            symbol,
            icon_uri,
            target_currency,
            mint_authority,
            oracle_pubkey,
            total_supply: 0,
            collateral_ratio: 0,
            last_oracle_price: 0,
            last_update_timestamp: 0,
            admin_authority: mint_authority,
            oracle_authority: mint_authority,
            fee_collector: mint_authority,
            is_paused: false,
            authorized_minters,
        }
    }

    /// Whether `who` is among the authorized minters.
    pub fn is_authorized_minter(&self, who: &Address) -> (r: bool)
        ensures
            r == self.authorized_minters@.contains(*who),
    {
        contains_address(&self.authorized_minters, who)
    }

    /// Writes an accepted update into the record.
    pub fn apply(&mut self, u: RecordUpdate)
        ensures
            *final(self) == old(self).updated(u),
    {
        self.total_supply = u.total_supply;
        self.last_oracle_price = u.last_oracle_price;
        self.last_update_timestamp = u.last_update_timestamp;
    }
}

} // verus!
