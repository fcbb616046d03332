use vstd::prelude::*;
use vstd::string::*;

verus! {

/// The mathematical value of a [`TokenConfig`].
pub struct ConfigModel {
    pub name: Seq<char>,
    pub symbol: Seq<char>,
    pub decimals: u8,
    pub total_supply: u64,
    pub max_supply: Option<u64>,
    pub mint_per_like: u64,
    pub authority: Seq<char>,
}

impl ConfigModel {
    /// The issued amount does not exceed the ceiling, where one is set.
    pub open spec fn within_cap(self) -> bool {
        match self.max_supply {
            Some(max) => self.total_supply <= max,
            None => true,
        }
    }

    /// The same configuration with another issued amount.
    pub open spec fn with_total(self, total: u64) -> ConfigModel {
        ConfigModel { total_supply: total, ..self }
    }
}

/// The economic parameters of the token and its running total supply.
#[derive(Debug)]
pub struct TokenConfig {
    /// Display name of the token.
    pub name: String,
    /// Ticker symbol of the token.
    pub symbol: String,
    /// Number of decimal places of the smallest denomination.
    pub decimals: u8,
    /// Amount issued so far, in the smallest denomination.
    pub total_supply: u64,
    /// Hard ceiling on `total_supply`, if any.
    pub max_supply: Option<u64>,
    /// Reward minted for one like, in the smallest denomination.
    pub mint_per_like: u64,
    /// The identity that may replace this configuration.
    pub authority: String,
}

impl View for TokenConfig {
    type V = ConfigModel;

    open spec fn view(&self) -> ConfigModel {
        ConfigModel {
            name: self.name@,
            symbol: self.symbol@,
            decimals: self.decimals,
            total_supply: self.total_supply,
            max_supply: self.max_supply,
            mint_per_like: self.mint_per_like,
            authority: self.authority@,
        }
    }
}

/// Reward for one like under the standard parameters: one token at eight decimals.
pub const STANDARD_MINT_PER_LIKE: u64 = 100_000_000;

/// Ceiling under the standard parameters: a billion tokens at eight decimals.
pub const STANDARD_MAX_SUPPLY: u64 = 100_000_000_000_000_000;

impl TokenConfig {
    /// The parameters a ledger starts with: nothing issued yet, a ceiling of
    /// a billion tokens and a reward of one token per like.
    pub open spec fn standard_model(authority: Seq<char>) -> ConfigModel {
        ConfigModel {
            name: "EatReview Token"@,
            symbol: "ERT"@,
            decimals: 8,
            total_supply: 0,
            max_supply: Some(STANDARD_MAX_SUPPLY),
            mint_per_like: STANDARD_MINT_PER_LIKE,
            authority,
        }
    }

    /// Builds the standard parameters for the given authority.
    pub fn standard(authority: String) -> (config: TokenConfig)
        ensures
            config@ == Self::standard_model(authority@),
            config@.within_cap(),
    {
        TokenConfig {
            name: String::from_str("EatReview Token"),
            symbol: String::from_str("ERT"),
            decimals: 8,
            total_supply: 0,
            max_supply: Some(STANDARD_MAX_SUPPLY),
            mint_per_like: STANDARD_MINT_PER_LIKE,
            authority,
        }
    }

    /// An independent copy with the same value.
    pub fn snapshot(&self) -> (copy: TokenConfig)
        ensures
            copy@ == self@,
    {
        TokenConfig {
            name: self.name.clone(),
            symbol: self.symbol.clone(),
            decimals: self.decimals,
            total_supply: self.total_supply,
            max_supply: self.max_supply,
            mint_per_like: self.mint_per_like,
            authority: self.authority.clone(),
        }
    }
}

} // verus!
