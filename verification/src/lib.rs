//! Watches chat messages from tracked groups, detects mentions of
//! base-58 token addresses, classifies the on-chain account each
//! candidate refers to, and resolves the first usable candidate into a
//! canonical token-metadata record through two external data providers
//! with a fixed fallback order.
//!
//! All decisions are made by verified functions in this crate; network
//! and terminal I/O is performed by the embedding program, which drives
//! the resolution state machine by executing the actions it requests
//! and feeding the outcomes back as events.

use vstd::prelude::*;

pub mod assemble;
pub mod classify;
pub mod config;
pub mod dexscreener;
pub mod extract;
pub mod groups;
pub mod metadata;
pub mod parser;
pub mod resolver;
pub mod text;

pub use assemble::Call;
pub use assemble::ChatSender;
pub use assemble::ParseResult;
pub use assemble::TelegramSender;
pub use assemble::Token;
pub use classify::AccountClassification;
pub use classify::AccountSnapshot;
pub use classify::classify_account;
pub use config::TelegramConfig;
pub use dexscreener::DexscreenerPair;
pub use dexscreener::DexscreenerPairsResponse;
pub use dexscreener::DexscreenerQuoteToken;
pub use dexscreener::DexscreenerToken;
pub use dexscreener::DexscreenerTransactionDetail;
pub use dexscreener::DexscreenerTransactions;
pub use extract::Candidate;
pub use groups::GroupFilter;
pub use groups::TelegramGroup;
pub use metadata::Extensions;
pub use metadata::SolanaTokenCall;
pub use metadata::SolanaTokenOverview;
pub use metadata::SolanaTokenOverviewData;
pub use metadata::SolanaTokenOverviewResponse;
pub use parser::DefaultParser;
pub use parser::MessageInfo;
pub use parser::ParseAction;
pub use parser::Resolution;
pub use resolver::MetadataResolver;
pub use resolver::ResolveAction;
pub use resolver::ResolveEvent;

verus! {

/// Types that carry a short diagnostic label.
pub trait TypeLabeled {
    /// The label of the implementing type.
    fn type_label() -> &'static str;
}

/// A short diagnostic label for a value's type.
pub fn type_of<T: TypeLabeled>(_v: &T) -> &'static str {
    T::type_label()
}

impl TypeLabeled for parser::DefaultParser {
    fn type_label() -> &'static str {
        "DefaultParser"
    }
}

impl TypeLabeled for parser::Resolution {
    fn type_label() -> &'static str {
        "Resolution"
    }
}

impl TypeLabeled for assemble::ParseResult {
    fn type_label() -> &'static str {
        "ParseResult"
    }
}

impl TypeLabeled for assemble::Token {
    fn type_label() -> &'static str {
        "Token"
    }
}

impl TypeLabeled for assemble::Call {
    fn type_label() -> &'static str {
        "Call"
    }
}

impl TypeLabeled for assemble::TelegramSender {
    fn type_label() -> &'static str {
        "TelegramSender"
    }
}

impl TypeLabeled for groups::TelegramGroup {
    fn type_label() -> &'static str {
        "TelegramGroup"
    }
}

impl TypeLabeled for groups::GroupFilter {
    fn type_label() -> &'static str {
        "GroupFilter"
    }
}

} // verus!
