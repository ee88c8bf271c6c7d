//! Account classification: deciding whether a candidate address names a
//! token mint, a liquidity pair, or neither.
//!
//! The decision is a pure function of the fetched account's owner
//! program and of whether its data decodes as token-mint state: the
//! fixed liquidity-pool program marks a pair whatever the data holds;
//! otherwise decodable mint state marks a token; everything else —
//! including an address that does not parse or an account that could
//! not be fetched — is classified as other, never as an error.

use vstd::prelude::*;

use core::str::FromStr;
use crate::text::str_eq;

verus! {

/// What kind of on-chain account a candidate address names.
#[derive(Debug, Clone, Copy, PartialEq, Eq, Structural)]
pub enum AccountClassification {
    /// A token mint.
    Token,
    /// A liquidity-pool pair account.
    LiquidityPair,
    /// Anything else, including addresses that could not be examined.
    Other,
}

/// The part of a fetched on-chain account that classification reads:
/// the owner program id, rendered in base-58, and the raw account data.
#[derive(Debug, Clone, PartialEq)]
pub struct AccountSnapshot {
    /// The owner program id, in base-58.
    pub owner: String,
    /// The account's raw data bytes.
    pub data: Vec<u8>,
}

/// Whether a text parses as a public key: base-58, decoding to exactly
/// the key size. Pinned down by [`pubkey_parses`].
pub uninterp spec fn pubkey_valid(s: Seq<char>) -> bool;

/// Whether bytes hold initialized token-mint state. Pinned down by
/// [`mint_state_decodes`].
pub uninterp spec fn mint_decodes(data: Seq<u8>) -> bool;

/// The owner program id that marks liquidity-pair accounts.
pub open spec fn raydium_pool_id() -> Seq<char> {
    "675kPX9MHTjS2zt1qfr1NYHuzeLXfQM9H24wFSUt1Mp8"@
}

/// The liquidity-pool program id as text.
pub fn raydium_liquidity_pool_v4() -> (s: &'static str)
    ensures
        s@ == raydium_pool_id(),
{
    "675kPX9MHTjS2zt1qfr1NYHuzeLXfQM9H24wFSUt1Mp8"
}

/// Relies on Pubkey::from_str of solana-program (through spl-token's
/// re-export): the text parses exactly when it is at most the longest
/// base-58 key rendering, all base-58, and decodes to the 32-byte key
/// size; the outcome is a pure function of the text.
#[verifier::external_body]
pub fn pubkey_parses(addr: &str) -> (r: bool)
    ensures
        r == pubkey_valid(addr@),
{
    spl_token::solana_program::pubkey::Pubkey::from_str(addr).is_ok()
}

/// Relies on Mint::unpack of spl-token, the chain's standard
/// token-mint decoder: the bytes decode exactly when they hold packed,
/// initialized mint state; the outcome is a pure function of the
/// bytes, and any length other than the packed mint size fails.
#[verifier::external_body]
pub fn mint_state_decodes(data: &[u8]) -> (r: bool)
    ensures
        r == mint_decodes(data@),
        data@.len() != 82 ==> !r,
{
    <spl_token::state::Mint as spl_token::solana_program::program_pack::Pack>::unpack(
        data,
    ).is_ok()
}

/// How a fetched account classifies: the pool program's accounts are
/// liquidity pairs whatever their data; otherwise decodable mint state
/// marks a token; everything else is other.
pub open spec fn spec_classify(owner: Seq<char>, decodes: bool) -> AccountClassification {
    if owner == raydium_pool_id() {
        AccountClassification::LiquidityPair
    } else if decodes {
        AccountClassification::Token
    } else {
        AccountClassification::Other
    }
}

/// Classify a fetched account from its owner program and data.
pub fn classify_account(account: &AccountSnapshot) -> (c: AccountClassification)
    ensures
        c == spec_classify(account.owner@, mint_decodes(account.data@)),
{
    if str_eq(account.owner.as_str(), raydium_liquidity_pool_v4()) {
        AccountClassification::LiquidityPair
    } else if mint_state_decodes(account.data.as_slice()) {
        AccountClassification::Token
    } else {
        AccountClassification::Other
    }
}

/// An account owned by the fixed liquidity-pool program classifies as
/// a liquidity pair regardless of its data payload.
pub proof fn lemma_pool_owner_overrides_data(owner: Seq<char>, decodes: bool)
    ensures
        owner == raydium_pool_id() ==> spec_classify(owner, decodes)
            == AccountClassification::LiquidityPair,
{
}

} // verus!
