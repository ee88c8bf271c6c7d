//! The secondary data provider's pair-lookup records, and the decision
//! applied to its responses: a pair's base token is what the resolver
//! fetches metadata for when a candidate turns out to be a pair.
//!
//! Field names follow the provider. Volumes, price changes, liquidity
//! and fully-diluted valuation are floating-point figures upstream;
//! they are carried opaquely as the `u64` bit patterns of their
//! IEEE-754 values and never interpreted.

use vstd::prelude::*;

verus! {

/// One side of a trading pair.
#[derive(Debug, Clone, PartialEq)]
pub struct DexscreenerToken {
    /// The token's mint address, in base-58.
    pub address: String,
    /// Human-readable name.
    pub name: String,
    /// Ticker symbol.
    pub symbol: String,
}

/// The quote side of a pair, reported by symbol only.
#[derive(Debug, Clone, PartialEq)]
pub struct DexscreenerQuoteToken {
    /// Ticker symbol.
    pub symbol: String,
}

/// Buy and sell counts within one window.
#[derive(Debug, Clone, PartialEq)]
pub struct DexscreenerTransactionDetail {
    /// Number of buys.
    pub buys: i32,
    /// Number of sells.
    pub sells: i32,
}

/// Transaction counts at the provider's fixed windows.
#[derive(Debug, Clone, PartialEq)]
pub struct DexscreenerTransactions {
    /// Last five minutes.
    pub m5: DexscreenerTransactionDetail,
    /// Last hour.
    pub h1: DexscreenerTransactionDetail,
    /// Last six hours.
    pub h6: DexscreenerTransactionDetail,
    /// Last day.
    pub h24: DexscreenerTransactionDetail,
}

/// Trade volume at the provider's fixed windows, as bit patterns.
#[derive(Debug, Clone, PartialEq)]
pub struct DexscreenerVolume {
    /// Last five minutes.
    pub m5: u64,
    /// Last hour.
    pub h1: u64,
    /// Last six hours.
    pub h6: u64,
    /// Last day.
    pub h24: u64,
}

/// Price movement at the provider's fixed windows, as bit patterns.
#[derive(Debug, Clone, PartialEq)]
pub struct DexscreenerPriceChange {
    /// Last five minutes.
    pub m5: u64,
    /// Last hour.
    pub h1: u64,
    /// Last six hours.
    pub h6: u64,
    /// Last day.
    pub h24: u64,
}

/// Liquidity of a pair, as bit patterns.
#[derive(Debug, Clone, PartialEq)]
pub struct DexscreenerLiquidity {
    /// In US dollars, if reported.
    pub usd: Option<u64>,
    /// In the base token.
    pub base: u64,
    /// In the quote token.
    pub quote: u64,
}

/// One pair record of the secondary provider.
#[derive(Debug, Clone, PartialEq)]
pub struct DexscreenerPair {
    /// The chain the pair lives on.
    pub chain_id: String,
    /// The exchange the pair trades on.
    pub dex_id: String,
    /// The provider's page for the pair.
    pub url: String,
    /// The pair account's address, in base-58.
    pub pair_address: String,
    /// The traded token.
    pub base_token: DexscreenerToken,
    /// The token it trades against.
    pub quote_token: DexscreenerQuoteToken,
    /// Price in the quote token, as the provider renders it.
    pub price_native: String,
    /// Price in US dollars, as the provider renders it.
    pub price_usd: Option<String>,
    /// Transaction counts.
    pub txns: DexscreenerTransactions,
    /// Trade volume.
    pub volume: DexscreenerVolume,
    /// Price movement.
    pub price_change: DexscreenerPriceChange,
    /// Liquidity, if reported.
    pub liquidity: Option<DexscreenerLiquidity>,
    /// Fully-diluted valuation, as a bit pattern.
    pub fdv: Option<u64>,
    /// When the pair was created, milliseconds since the Unix epoch.
    pub pair_created_at: Option<i64>,
}

/// A deserialized response of the secondary provider's pair lookup.
#[derive(Debug, Clone, PartialEq)]
pub struct DexscreenerPairsResponse {
    /// The provider's schema version.
    pub schema_version: String,
    /// The single looked-up pair, if found.
    pub pair: Option<DexscreenerPair>,
    /// Alternative list form of the result.
    pub pairs: Option<Vec<DexscreenerPair>>,
}

/// What a pair-lookup response yields: the base token's address exactly
/// when the response arrived and holds a pair. `None` stands for a
/// transport or deserialization failure or a pair that was not found.
pub open spec fn spec_pair_base_token(resp: Option<DexscreenerPairsResponse>) -> Option<String> {
    match resp {
        Option::Some(r) => match r.pair {
            Option::Some(p) => Option::Some(p.base_token.address),
            Option::None => Option::None,
        },
        Option::None => Option::None,
    }
}

/// Apply the pair decision: the base token's address comes out exactly
/// when the response arrived and holds a pair.
pub fn pair_base_token(resp: Option<DexscreenerPairsResponse>) -> (r: Option<String>)
    ensures
        r == spec_pair_base_token(resp),
{
    match resp {
        Option::Some(r) => match r.pair {
            Option::Some(p) => Option::Some(p.base_token.address),
            Option::None => Option::None,
        },
        Option::None => Option::None,
    }
}

} // verus!
