//! The canonical token-metadata record of the primary data provider,
//! and the decision applied to its responses.
//!
//! Both records keep the provider's own field names, flat, with each
//! market statistic independently optional, because the provider omits
//! windows and figures inconsistently. Identity fields and the price
//! are always present. Prices, volumes, percentages, liquidity, supply
//! and market capitalisation are floating-point figures upstream; this
//! library never interprets them, so it carries each one opaquely as
//! the `u64` bit pattern of its IEEE-754 value. The remaining window
//! fields are plain counts.

use vstd::prelude::*;

use crate::text::clone_opt_string;

verus! {

/// Free-form key/value extension entries of a token record
/// (web site, social links), kept in the order received.
#[derive(Debug, Clone, PartialEq)]
pub struct Extensions {
    /// Extension keys with their optional values.
    pub properties: Vec<(String, Option<String>)>,
}

/// One token record of the primary provider: identity plus market
/// statistics at the fixed windows 30m, 1h, 2h, 4h, 6h, 8h, 12h, 24h.
#[derive(Debug, Clone, PartialEq)]
pub struct SolanaTokenOverview {
    /// The token's mint address, in base-58.
    pub address: String,
    /// Number of decimals of the token's smallest unit.
    pub decimals: u8,
    /// Ticker symbol.
    pub symbol: String,
    /// Human-readable name.
    pub name: String,
    /// Optional extension entries.
    pub extensions: Option<Extensions>,
    /// Optional logo location.
    pub logo_uri: Option<String>,
    /// Liquidity in the token's pools, as a bit pattern.
    pub liquidity: Option<u64>,
    /// Current price, as a bit pattern; always present.
    pub price: u64,
    /// Time of the last trade, seconds since the Unix epoch.
    pub last_trade_unix_time: Option<i64>,
    /// Time of the last trade, as the provider renders it.
    pub last_trade_human_time: Option<String>,
    /// Circulating supply, as a bit pattern.
    pub supply: Option<u64>,
    /// Market capitalisation, as a bit pattern.
    pub mc: Option<u64>,
    /// How many markets list the token.
    pub number_markets: Option<u64>,
    // 30m window
    pub history_30m_price: Option<u64>,
    pub price_change_30m_percent: Option<u64>,
    pub v_30m_usd: Option<u64>,
    pub trade_30m: Option<u64>,
    pub unique_wallet_30m: Option<u64>,
    pub view_30m: Option<u64>,
    // 1h window
    pub history_1h_price: Option<u64>,
    pub price_change_1h_percent: Option<u64>,
    pub v_1h_usd: Option<u64>,
    pub trade_1h: Option<u64>,
    pub unique_wallet_1h: Option<u64>,
    pub view_1h: Option<u64>,
    // 2h window
    pub history_2h_price: Option<u64>,
    pub price_change_2h_percent: Option<u64>,
    pub v_2h_usd: Option<u64>,
    pub trade_2h: Option<u64>,
    pub unique_wallet_2h: Option<u64>,
    pub view_2h: Option<u64>,
    // 4h window
    pub history_4h_price: Option<u64>,
    pub price_change_4h_percent: Option<u64>,
    pub v_4h_usd: Option<u64>,
    pub trade_4h: Option<u64>,
    pub unique_wallet_4h: Option<u64>,
    pub view_4h: Option<u64>,
    // 6h window
    pub history_6h_price: Option<u64>,
    pub price_change_6h_percent: Option<u64>,
    pub v_6h_usd: Option<u64>,
    pub trade_6h: Option<u64>,
    pub unique_wallet_6h: Option<u64>,
    pub view_6h: Option<u64>,
    // 8h window
    pub history_8h_price: Option<u64>,
    pub price_change_8h_percent: Option<u64>,
    pub v_8h_usd: Option<u64>,
    pub trade_8h: Option<u64>,
    pub unique_wallet_8h: Option<u64>,
    pub view_8h: Option<u64>,
    // 12h window
    pub history_12h_price: Option<u64>,
    pub price_change_12h_percent: Option<u64>,
    pub v_12h_usd: Option<u64>,
    pub trade_12h: Option<u64>,
    pub unique_wallet_12h: Option<u64>,
    pub view_12h: Option<u64>,
    // 24h window
    pub history_24h_price: Option<u64>,
    pub price_change_24h_percent: Option<u64>,
    pub v_24h_usd: Option<u64>,
    pub trade_24h: Option<u64>,
    pub unique_wallet_24h: Option<u64>,
    pub view_24h: Option<u64>,
}

/// The market snapshot attached to a call: the statistics of the
/// resolved token record, without its identity fields.
#[derive(Debug, Clone, PartialEq)]
pub struct SolanaTokenCall {
    /// Liquidity in the token's pools, as a bit pattern.
    pub liquidity: Option<u64>,
    /// Price at resolution time, as a bit pattern.
    pub price: u64,
    /// Time of the last trade, seconds since the Unix epoch.
    pub last_trade_unix_time: Option<i64>,
    /// Time of the last trade, as the provider renders it.
    pub last_trade_human_time: Option<String>,
    /// Circulating supply, as a bit pattern.
    pub supply: Option<u64>,
    /// Market capitalisation, as a bit pattern.
    pub mc: Option<u64>,
    /// How many markets list the token.
    pub number_markets: Option<u64>,
    // 30m window
    pub history_30m_price: Option<u64>,
    pub price_change_30m_percent: Option<u64>,
    pub v_30m_usd: Option<u64>,
    pub trade_30m: Option<u64>,
    pub unique_wallet_30m: Option<u64>,
    pub view_30m: Option<u64>,
    // 1h window
    pub history_1h_price: Option<u64>,
    pub price_change_1h_percent: Option<u64>,
    pub v_1h_usd: Option<u64>,
    pub trade_1h: Option<u64>,
    pub unique_wallet_1h: Option<u64>,
    pub view_1h: Option<u64>,
    // 2h window
    pub history_2h_price: Option<u64>,
    pub price_change_2h_percent: Option<u64>,
    pub v_2h_usd: Option<u64>,
    pub trade_2h: Option<u64>,
    pub unique_wallet_2h: Option<u64>,
    pub view_2h: Option<u64>,
    // 4h window
    pub history_4h_price: Option<u64>,
    pub price_change_4h_percent: Option<u64>,
    pub v_4h_usd: Option<u64>,
    pub trade_4h: Option<u64>,
    pub unique_wallet_4h: Option<u64>,
    pub view_4h: Option<u64>,
    // 6h window
    pub history_6h_price: Option<u64>,
    pub price_change_6h_percent: Option<u64>,
    pub v_6h_usd: Option<u64>,
    pub trade_6h: Option<u64>,
    pub unique_wallet_6h: Option<u64>,
    pub view_6h: Option<u64>,
    // 8h window
    pub history_8h_price: Option<u64>,
    pub price_change_8h_percent: Option<u64>,
    pub v_8h_usd: Option<u64>,
    pub trade_8h: Option<u64>,
    pub unique_wallet_8h: Option<u64>,
    pub view_8h: Option<u64>,
    // 12h window
    pub history_12h_price: Option<u64>,
    pub price_change_12h_percent: Option<u64>,
    pub v_12h_usd: Option<u64>,
    pub trade_12h: Option<u64>,
    pub unique_wallet_12h: Option<u64>,
    pub view_12h: Option<u64>,
    // 24h window
    pub history_24h_price: Option<u64>,
    pub price_change_24h_percent: Option<u64>,
    pub v_24h_usd: Option<u64>,
    pub trade_24h: Option<u64>,
    pub unique_wallet_24h: Option<u64>,
    pub view_24h: Option<u64>,
}

/// The data field of a provider response: either a full record or an
/// empty object.
#[derive(Debug, Clone, PartialEq)]
pub enum SolanaTokenOverviewData {
    /// A present token record.
    Data(SolanaTokenOverview),
    /// The empty object the provider sends when it has nothing.
    Empty,
}

/// A deserialized response of the primary provider.
#[derive(Debug, Clone, PartialEq)]
pub struct SolanaTokenOverviewResponse {
    /// The payload.
    pub data: SolanaTokenOverviewData,
    /// Whether the provider reports success.
    pub success: bool,
}

/// What a provider response yields: a record exactly when the
/// response arrived, the provider reported success, and the payload
/// holds a record. `None` stands for a transport or deserialization
/// failure, a reported failure, or an empty payload.
pub open spec fn spec_overview_result(
    resp: Option<SolanaTokenOverviewResponse>,
) -> Option<SolanaTokenOverview> {
    match resp {
        Option::Some(r) => {
            if r.success {
                match r.data {
                    SolanaTokenOverviewData::Data(d) => Option::Some(d),
                    SolanaTokenOverviewData::Empty => Option::None,
                }
            } else {
                Option::None
            }
        },
        Option::None => Option::None,
    }
}

/// Apply the response decision: a record comes out exactly when the
/// response arrived, reports success and carries one.
pub fn overview_result(resp: Option<SolanaTokenOverviewResponse>) -> (r: Option<
    SolanaTokenOverview,
>)
    ensures
        r == spec_overview_result(resp),
{
    match resp {
        Option::Some(r) => {
            if r.success {
                match r.data {
                    SolanaTokenOverviewData::Data(d) => Option::Some(d),
                    SolanaTokenOverviewData::Empty => Option::None,
                }
            } else {
                Option::None
            }
        },
        Option::None => Option::None,
    }
}

/// The market snapshot drawn from a token record: every statistic
/// carried over unchanged.
pub open spec fn spec_stats_of(d: SolanaTokenOverview) -> SolanaTokenCall {
    SolanaTokenCall {
        liquidity: d.liquidity,
        price: d.price,
        last_trade_unix_time: d.last_trade_unix_time,
        last_trade_human_time: d.last_trade_human_time,
        supply: d.supply,
        mc: d.mc,
        number_markets: d.number_markets,
        history_30m_price: d.history_30m_price,
        price_change_30m_percent: d.price_change_30m_percent,
        v_30m_usd: d.v_30m_usd,
        trade_30m: d.trade_30m,
        unique_wallet_30m: d.unique_wallet_30m,
        view_30m: d.view_30m,
        history_1h_price: d.history_1h_price,
        price_change_1h_percent: d.price_change_1h_percent,
        v_1h_usd: d.v_1h_usd,
        trade_1h: d.trade_1h,
        unique_wallet_1h: d.unique_wallet_1h,
        view_1h: d.view_1h,
        history_2h_price: d.history_2h_price,
        price_change_2h_percent: d.price_change_2h_percent,
        v_2h_usd: d.v_2h_usd,
        trade_2h: d.trade_2h,
        unique_wallet_2h: d.unique_wallet_2h,
        view_2h: d.view_2h,
        history_4h_price: d.history_4h_price,
        price_change_4h_percent: d.price_change_4h_percent,
        v_4h_usd: d.v_4h_usd,
        trade_4h: d.trade_4h,
        unique_wallet_4h: d.unique_wallet_4h,
        view_4h: d.view_4h,
        history_6h_price: d.history_6h_price,
        price_change_6h_percent: d.price_change_6h_percent,
        v_6h_usd: d.v_6h_usd,
        trade_6h: d.trade_6h,
        unique_wallet_6h: d.unique_wallet_6h,
        view_6h: d.view_6h,
        history_8h_price: d.history_8h_price,
        price_change_8h_percent: d.price_change_8h_percent,
        v_8h_usd: d.v_8h_usd,
        trade_8h: d.trade_8h,
        unique_wallet_8h: d.unique_wallet_8h,
        view_8h: d.view_8h,
        history_12h_price: d.history_12h_price,
        price_change_12h_percent: d.price_change_12h_percent,
        v_12h_usd: d.v_12h_usd,
        trade_12h: d.trade_12h,
        unique_wallet_12h: d.unique_wallet_12h,
        view_12h: d.view_12h,
        history_24h_price: d.history_24h_price,
        price_change_24h_percent: d.price_change_24h_percent,
        v_24h_usd: d.v_24h_usd,
        trade_24h: d.trade_24h,
        unique_wallet_24h: d.unique_wallet_24h,
        view_24h: d.view_24h,
    }
}

/// Draw the market snapshot out of a token record; every statistic is
/// carried over unchanged.
pub fn stats_of(d: &SolanaTokenOverview) -> (r: SolanaTokenCall)
    ensures
        r == spec_stats_of(*d),
{
    SolanaTokenCall {
        liquidity: d.liquidity,
        price: d.price,
        last_trade_unix_time: d.last_trade_unix_time,
        last_trade_human_time: clone_opt_string(&d.last_trade_human_time),
        supply: d.supply,
        mc: d.mc,
        number_markets: d.number_markets,
        history_30m_price: d.history_30m_price,
        price_change_30m_percent: d.price_change_30m_percent,
        v_30m_usd: d.v_30m_usd,
        trade_30m: d.trade_30m,
        unique_wallet_30m: d.unique_wallet_30m,
        view_30m: d.view_30m,
        history_1h_price: d.history_1h_price,
        price_change_1h_percent: d.price_change_1h_percent,
        v_1h_usd: d.v_1h_usd,
        trade_1h: d.trade_1h,
        unique_wallet_1h: d.unique_wallet_1h,
        view_1h: d.view_1h,
        history_2h_price: d.history_2h_price,
        price_change_2h_percent: d.price_change_2h_percent,
        v_2h_usd: d.v_2h_usd,
        trade_2h: d.trade_2h,
        unique_wallet_2h: d.unique_wallet_2h,
        view_2h: d.view_2h,
        history_4h_price: d.history_4h_price,
        price_change_4h_percent: d.price_change_4h_percent,
        v_4h_usd: d.v_4h_usd,
        trade_4h: d.trade_4h,
        unique_wallet_4h: d.unique_wallet_4h,
        view_4h: d.view_4h,
        history_6h_price: d.history_6h_price,
        price_change_6h_percent: d.price_change_6h_percent,
        v_6h_usd: d.v_6h_usd,
        trade_6h: d.trade_6h,
        unique_wallet_6h: d.unique_wallet_6h,
        view_6h: d.view_6h,
        history_8h_price: d.history_8h_price,
        price_change_8h_percent: d.price_change_8h_percent,
        v_8h_usd: d.v_8h_usd,
        trade_8h: d.trade_8h,
        unique_wallet_8h: d.unique_wallet_8h,
        view_8h: d.view_8h,
        history_12h_price: d.history_12h_price,
        price_change_12h_percent: d.price_change_12h_percent,
        v_12h_usd: d.v_12h_usd,
        trade_12h: d.trade_12h,
        unique_wallet_12h: d.unique_wallet_12h,
        view_12h: d.view_12h,
        history_24h_price: d.history_24h_price,
        price_change_24h_percent: d.price_change_24h_percent,
        v_24h_usd: d.v_24h_usd,
        trade_24h: d.trade_24h,
        unique_wallet_24h: d.unique_wallet_24h,
        view_24h: d.view_24h,
    }
}

} // verus!
