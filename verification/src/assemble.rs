//! Result assembly: the sender model, the output records, and the
//! mapping from a message's sender to the sender record of a call.
//!
//! A sender is either an individual user or a channel; a multi-user
//! group as sender has no defined mapping and drops the whole message.

use vstd::prelude::*;

use crate::metadata::Extensions;
use crate::metadata::SolanaTokenCall;
use crate::text::clone_opt_string;

verus! {

/// The sender of a message as the chat layer reports it.
#[derive(Debug, Clone, PartialEq)]
pub enum ChatSender {
    /// An individual user.
    User {
        /// The user's chat identifier.
        id: i64,
        /// The user's first name.
        first_name: String,
        /// The user's last name, if set.
        last_name: Option<String>,
        /// The user's public handle, if set.
        username: Option<String>,
    },
    /// A broadcast channel.
    Channel {
        /// The channel's chat identifier.
        id: i64,
        /// The channel's title.
        title: String,
    },
    /// A multi-user group; unsupported as a call source.
    Group {
        /// The group's chat identifier.
        id: i64,
    },
}

/// The sender record attached to a call.
#[derive(Debug, Clone, PartialEq)]
pub struct TelegramSender {
    /// The sender's chat identifier.
    pub telegram_id: i64,
    /// First name; present exactly for users.
    pub first_name: Option<String>,
    /// Last name; present only for users that set one.
    pub last_name: Option<String>,
    /// The user's handle, or for channels the title.
    pub username: Option<String>,
    /// Whether the sender is a channel.
    pub is_channel: bool,
}

/// The identity of the resolved token.
#[derive(Debug, Clone, PartialEq)]
pub struct Token {
    /// The token's mint address, in base-58.
    pub address: String,
    /// Number of decimals of the token's smallest unit.
    pub decimals: u8,
    /// Human-readable name.
    pub name: String,
    /// Ticker symbol.
    pub symbol: String,
    /// The network the token lives on.
    pub network: String,
    /// Optional logo location.
    pub logo_uri: Option<String>,
    /// Optional extension entries.
    pub extensions: Option<Extensions>,
}

/// The context of one qualifying message.
#[derive(Debug, Clone, PartialEq)]
pub struct Call {
    /// When the message was sent, as the chat layer renders it.
    pub timestamp: String,
    /// Whether the call was made in a channel rather than by a user.
    pub is_channel_call: bool,
    /// The full message text.
    pub message_text: String,
    /// The market snapshot of the resolved token.
    pub token_call_data: SolanaTokenCall,
}

/// The one output record per qualifying message.
#[derive(Debug, Clone, PartialEq)]
pub struct ParseResult {
    /// The resolved token's identity.
    pub token: Token,
    /// The message context.
    pub call: Call,
    /// Who made the call.
    pub sender: TelegramSender,
}

/// The identity part of a token record, stamped with the network the
/// parser works on.
pub open spec fn spec_token_of(d: crate::metadata::SolanaTokenOverview, network: String) -> Token {
    Token {
        address: d.address,
        decimals: d.decimals,
        name: d.name,
        symbol: d.symbol,
        network: network,
        logo_uri: d.logo_uri,
        extensions: d.extensions,
    }
}

/// Build the token identity from a record, consuming it.
pub fn token_from(d: crate::metadata::SolanaTokenOverview, network: String) -> (t: Token)
    ensures
        t == spec_token_of(d, network),
{
    Token {
        address: d.address,
        decimals: d.decimals,
        name: d.name,
        symbol: d.symbol,
        network: network,
        logo_uri: d.logo_uri,
        extensions: d.extensions,
    }
}

/// How a message's sender maps to a sender record: users and channels
/// map into the same shape, channels carrying their title as the
/// username; a group yields nothing, and so does an absent sender.
pub open spec fn spec_extract_sender(s: Option<ChatSender>) -> Option<TelegramSender> {
    match s {
        Option::Some(ChatSender::User { id, first_name, last_name, username }) => Option::Some(
            TelegramSender {
                telegram_id: id,
                first_name: Option::Some(first_name),
                last_name: last_name,
                username: username,
                is_channel: false,
            },
        ),
        Option::Some(ChatSender::Channel { id, title }) => Option::Some(
            TelegramSender {
                telegram_id: id,
                first_name: Option::None,
                last_name: Option::None,
                username: Option::Some(title),
                is_channel: true,
            },
        ),
        Option::Some(ChatSender::Group { .. }) => Option::None,
        Option::None => Option::None,
    }
}

/// Map a message's sender to the sender record of a call, if it has
/// one: a user keeps name and handle, a channel carries its title as
/// the username, a group is unsupported and yields nothing.
pub fn extract_sender(s: &Option<ChatSender>) -> (r: Option<TelegramSender>)
    ensures
        r == spec_extract_sender(*s),
{
    match s {
        Option::Some(ChatSender::User { id, first_name, last_name, username }) => Option::Some(
            TelegramSender {
                telegram_id: *id,
                first_name: Option::Some(first_name.clone()),
                last_name: clone_opt_string(last_name),
                username: clone_opt_string(username),
                is_channel: false,
            },
        ),
        Option::Some(ChatSender::Channel { id, title }) => Option::Some(
            TelegramSender {
                telegram_id: *id,
                first_name: Option::None,
                last_name: Option::None,
                username: Option::Some(title.clone()),
                is_channel: true,
            },
        ),
        Option::Some(ChatSender::Group { .. }) => Option::None,
        Option::None => Option::None,
    }
}

/// A user never counts as a channel call, a channel always does, and
/// only users and channels produce a sender record at all.
pub proof fn lemma_sender_variant_sets_channel_flag(s: Option<ChatSender>)
    ensures
        (s matches Option::Some(ChatSender::User { .. })) ==> (spec_extract_sender(
            s,
        ) matches Option::Some(r) && !r.is_channel),
        (s matches Option::Some(ChatSender::Channel { .. })) ==> (spec_extract_sender(
            s,
        ) matches Option::Some(r) && r.is_channel),
        (s matches Option::Some(ChatSender::Group { .. })) ==> spec_extract_sender(s) is None,
        s is None ==> spec_extract_sender(s) is None,
{
}

} // verus!
