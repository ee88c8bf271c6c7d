//! The message parser: the full pipeline from one inbound message to
//! at most one [`ParseResult`].
//!
//! [`DefaultParser::parse`] filters the message (tracked group, not
//! sent via a bot), extracts candidate addresses from its text and
//! opens a [`Resolution`]: a state machine the embedding program
//! drives by performing each requested fetch and feeding the outcome
//! back. When resolution succeeds the machine assembles the result
//! record itself; a message whose sender is a group, or whose
//! candidates all fail, produces nothing.

use vstd::prelude::*;

use vstd::utf8::encode_utf8;

use crate::assemble::ChatSender;
use crate::assemble::Call;
use crate::assemble::ParseResult;
use crate::assemble::Token;
use crate::assemble::extract_sender;
use crate::assemble::spec_extract_sender;
use crate::assemble::spec_token_of;
use crate::assemble::token_from;
use crate::extract::extract_candidates;
use crate::extract::spec_candidate_spans;
use crate::groups::GroupFilter;
use crate::metadata::SolanaTokenCall;
use crate::metadata::SolanaTokenOverview;
use crate::metadata::spec_stats_of;
use crate::metadata::stats_of;
use crate::resolver::MetadataResolver;
use crate::resolver::ResolveAction;
use crate::resolver::ResolveEvent;
use crate::resolver::ResolvePhase;
use crate::resolver::first_usable;
use crate::resolver::lemma_first_usable_bounds;
use crate::resolver::lemma_first_usable_same;
use crate::resolver::spec_resolver_start;
use crate::resolver::spec_step;
use crate::classify::pubkey_valid;
use crate::text::ascii_seq;

verus! {

/// Everything of one inbound message that the pipeline reads.
#[derive(Debug, Clone, PartialEq)]
pub struct MessageInfo {
    /// The chat the message arrived in.
    pub chat_id: i64,
    /// Whether the message was sent through a bot.
    pub via_bot: bool,
    /// When the message was sent, as the chat layer renders it.
    pub timestamp: String,
    /// The message text.
    pub text: String,
    /// The message's sender, as far as the chat layer resolves it.
    pub sender: Option<ChatSender>,
}

/// What the embedding program must do next to carry a resolution on.
#[derive(Debug, Clone, PartialEq)]
pub enum ParseAction {
    /// Fetch the on-chain account state of `address`.
    FetchAccount {
        /// The account's address, in base-58.
        address: String,
    },
    /// Fetch the token overview of `address` from the primary provider.
    FetchOverview {
        /// The token's mint address, in base-58.
        address: String,
    },
    /// Look the pair `address` up at the secondary provider.
    FetchPair {
        /// The pair account's address, in base-58.
        address: String,
    },
    /// The message is fully handled.
    Finished {
        /// The assembled record, or nothing.
        result: Option<ParseResult>,
    },
}

/// What one message assembles to once a token record is resolved:
/// nothing when the sender is unsupported, else the identity, the
/// call context stamped with the channel flag, and the sender.
pub open spec fn spec_assembled(msg: MessageInfo, network: String, d: SolanaTokenOverview) -> Option<
    ParseResult,
> {
    match spec_extract_sender(msg.sender) {
        Option::Some(sender) => Option::Some(
            ParseResult {
                token: spec_token_of(d, network),
                call: Call {
                    timestamp: msg.timestamp,
                    is_channel_call: sender.is_channel,
                    message_text: msg.text,
                    token_call_data: spec_stats_of(d),
                },
                sender: sender,
            },
        ),
        Option::None => Option::None,
    }
}

/// Assemble the output record for a resolved token, if the message's
/// sender supports one.
pub fn assemble_result(msg: &MessageInfo, network: &String, d: SolanaTokenOverview) -> (r: Option<
    ParseResult,
>)
    ensures
        r == spec_assembled(*msg, *network, d),
{
    match extract_sender(&msg.sender) {
        Option::Some(sender) => {
            let stats = stats_of(&d);
            let token = token_from(d, network.clone());
            let call = Call {
                timestamp: msg.timestamp.clone(),
                is_channel_call: sender.is_channel,
                message_text: msg.text.clone(),
                token_call_data: stats,
            };
            Option::Some(ParseResult { token, call, sender })
        },
        Option::None => Option::None,
    }
}

/// Lift a resolver action to the message level: fetches pass through,
/// and a finished resolution with a record is assembled against the
/// message.
pub open spec fn lift_action(msg: MessageInfo, network: String, act: ResolveAction) -> ParseAction {
    match act {
        ResolveAction::FetchAccount { address } => ParseAction::FetchAccount { address },
        ResolveAction::FetchOverview { address } => ParseAction::FetchOverview { address },
        ResolveAction::FetchPair { address } => ParseAction::FetchPair { address },
        ResolveAction::Finished { result } => ParseAction::Finished {
            result: match result {
                Option::Some(d) => spec_assembled(msg, network, d),
                Option::None => Option::None,
            },
        },
    }
}

/// One message's resolution in flight: the message context and the
/// resolver working through its candidates.
#[derive(Debug, Clone, PartialEq)]
pub struct Resolution {
    /// The message under resolution.
    pub msg: MessageInfo,
    /// The network stamped into assembled tokens.
    pub network: String,
    /// The resolver over the message's candidate addresses.
    pub resolver: MetadataResolver,
}

/// The transition of a resolution: step the resolver, and when it
/// finishes with a record, assemble the result against the message.
pub open spec fn spec_resolution_step(r: Resolution, event: ResolveEvent) -> (
    Resolution,
    ParseAction,
) {
    let (m2, act) = spec_step(r.resolver, event);
    (
        Resolution { msg: r.msg, network: r.network, resolver: m2 },
        lift_action(r.msg, r.network, act),
    )
}

impl Resolution {
    /// The resolver stays within its candidates.
    pub open spec fn wf(self) -> bool {
        self.resolver.wf()
    }

    /// Whether the resolution has ended.
    pub open spec fn is_done(self) -> bool {
        self.resolver.is_done()
    }

    /// Whether `event` answers what the resolution is waiting for.
    pub open spec fn expects(self, event: ResolveEvent) -> bool {
        self.resolver.expects(event)
    }

    /// Feed one event; the successor and the next action follow the
    /// transition function exactly.
    pub fn step(self, event: ResolveEvent) -> (r: (Resolution, ParseAction))
        requires
            self.wf(),
            self.expects(event),
        ensures
            r == spec_resolution_step(self, event),
            r.0.wf(),
    {
        let Resolution { msg, network, resolver } = self;
        let (m2, act) = resolver.step(event);
        let r2 = Resolution { msg, network, resolver: m2 };
        let action = match act {
            ResolveAction::FetchAccount { address } => ParseAction::FetchAccount { address },
            ResolveAction::FetchOverview { address } => ParseAction::FetchOverview { address },
            ResolveAction::FetchPair { address } => ParseAction::FetchPair { address },
            ResolveAction::Finished { result } => match result {
                Option::Some(d) => ParseAction::Finished {
                    result: assemble_result(&r2.msg, &r2.network, d),
                },
                Option::None => ParseAction::Finished { result: Option::None },
            },
        };
        (r2, action)
    }
}

/// Parses messages from tracked groups into call records.
#[derive(Debug, Clone, PartialEq)]
pub struct DefaultParser {
    /// The groups whose messages are parsed.
    pub tracked_groups: GroupFilter,
    /// The network stamped into assembled tokens.
    pub network: String,
}

impl DefaultParser {
    /// The parser works on the one chain this pipeline serves.
    pub open spec fn wf(self) -> bool {
        self.network@ == "solana"@
    }

    /// A parser over the given tracked groups.
    pub fn new(tracked_groups: GroupFilter) -> (r: DefaultParser)
        ensures
            r.wf(),
            r.tracked_groups == tracked_groups,
    {
        DefaultParser { tracked_groups, network: "solana".to_owned() }
    }

    /// Whether a message is admitted to resolution at all: its chat is
    /// tracked and it was not sent through a bot.
    pub open spec fn spec_admitted(self, msg: MessageInfo) -> bool {
        self.tracked_groups.spec_contains(msg.chat_id) && !msg.via_bot
    }

    /// Split a resolved record into the token identity, stamped with
    /// this parser's network, and the market snapshot.
    pub fn format_token_data(&self, data: SolanaTokenOverview) -> (r: (Token, SolanaTokenCall))
        ensures
            r.0 == spec_token_of(data, self.network),
            r.1 == spec_stats_of(data),
    {
        let stats = stats_of(&data);
        let token = token_from(data, self.network.clone());
        (token, stats)
    }

    /// Everything `parse` promises: the resolution carries the message
    /// and network; a message that is not admitted is finished at once
    /// with no result and no fetch; an admitted one opens a fresh
    /// resolution whose candidates are exactly the maximal base-58
    /// runs of address length in the message text, in order.
    pub open spec fn parse_post(self, msg: MessageInfo, r: (Resolution, ParseAction)) -> bool {
        &&& r.0.msg == msg
        &&& r.0.network == self.network
        &&& if !self.spec_admitted(msg) {
            &&& r.0.resolver.spec_candidates().len() == 0
            &&& r.0.resolver.spec_idx() == 0
            &&& r.0.is_done()
            &&& r.1 == (ParseAction::Finished { result: Option::None })
        } else {
            let bs = encode_utf8(msg.text@);
            let spans = spec_candidate_spans(bs, 0);
            let cands = r.0.resolver.spec_candidates();
            &&& cands.len() == spans.len()
            &&& (forall|k: int|
                0 <= k < spans.len() ==> (#[trigger] cands[k])@ == ascii_seq(
                    bs.subrange(spans[k].0, spans[k].1),
                ))
            &&& ({
                let (m0, a0) = spec_resolver_start(r.0.resolver.candidates);
                &&& r.0.resolver == m0
                &&& r.1 == lift_action(msg, self.network, a0)
            })
        }
    }

    /// Handle one message: drop it unless its chat is tracked and it
    /// did not come through a bot; otherwise extract its candidate
    /// addresses and open their resolution.
    pub fn parse(&self, msg: MessageInfo) -> (r: (Resolution, ParseAction))
        ensures
            self.parse_post(msg, r),
            r.0.wf(),
    {
        let admitted = self.tracked_groups.accepts(msg.chat_id) && !msg.via_bot;
        if !admitted {
            let resolver = MetadataResolver {
                candidates: Vec::new(),
                idx: 0,
                phase: ResolvePhase::Done,
            };
            return (
                Resolution { msg, network: self.network.clone(), resolver },
                ParseAction::Finished { result: Option::None },
            );
        }
        let cands = extract_candidates(msg.text.as_str().as_bytes());
        let mut addrs: Vec<String> = Vec::new();
        let n = cands.len();
        let mut i: usize = 0;
        while i < n
            invariant
                i <= n,
                n == cands@.len(),
                addrs@.len() == i,
                forall|k: int| 0 <= k < i ==> (#[trigger] addrs@[k])@ == cands@[k].text@,
            decreases n - i,
        {
            addrs.push(cands[i].text.clone());
            i = i + 1;
        }
        let (resolver, act) = MetadataResolver::new(addrs);
        let action = match act {
            ResolveAction::FetchAccount { address } => ParseAction::FetchAccount { address },
            ResolveAction::Finished { result: _ } => ParseAction::Finished {
                result: Option::None,
            },
            // a fresh resolver only asks for an account or finishes
            ResolveAction::FetchOverview { address } => {
                assert(false);
                ParseAction::FetchOverview { address }
            },
            ResolveAction::FetchPair { address } => {
                assert(false);
                ParseAction::FetchPair { address }
            },
        };
        (Resolution { msg, network: self.network.clone(), resolver }, action)
    }
}

/// Candidate lists that carry the same texts, position by position.
pub open spec fn same_texts(a: Seq<String>, b: Seq<String>) -> bool {
    &&& a.len() == b.len()
    &&& forall|k: int| 0 <= k < a.len() ==> (#[trigger] a[k])@ == b[k]@
}

/// Resolvers at the same point of the same work: equal texts, equal
/// position, equal phase.
pub open spec fn same_resolver(a: MetadataResolver, b: MetadataResolver) -> bool {
    &&& same_texts(a.candidates@, b.candidates@)
    &&& a.idx == b.idx
    &&& a.phase == b.phase
}

/// Resolutions of the same message at the same point.
pub open spec fn same_resolution(a: Resolution, b: Resolution) -> bool {
    &&& a.msg == b.msg
    &&& a.network == b.network
    &&& same_resolver(a.resolver, b.resolver)
}

/// Actions that ask for the same thing: fetches of the same address
/// text, or finishes with the very same result.
pub open spec fn same_action(a: ParseAction, b: ParseAction) -> bool {
    match (a, b) {
        (
            ParseAction::FetchAccount { address: x },
            ParseAction::FetchAccount { address: y },
        ) => x@ == y@,
        (
            ParseAction::FetchOverview { address: x },
            ParseAction::FetchOverview { address: y },
        ) => x@ == y@,
        (ParseAction::FetchPair { address: x }, ParseAction::FetchPair { address: y }) => x@
            == y@,
        (ParseAction::Finished { result: x }, ParseAction::Finished { result: y }) => x == y,
        _ => false,
    }
}

/// One step keeps equivalent resolutions equivalent and asks for the
/// same thing; a finished step returns the very same result.
pub proof fn lemma_step_deterministic(r1: Resolution, r2: Resolution, e: ResolveEvent)
    requires
        same_resolution(r1, r2),
        r1.wf(),
        r2.wf(),
    ensures
        ({
            let (s1, a1) = spec_resolution_step(r1, e);
            let (s2, a2) = spec_resolution_step(r2, e);
            same_resolution(s1, s2) && same_action(a1, a2)
        }),
{
    let c1 = r1.resolver.candidates;
    let c2 = r2.resolver.candidates;
    lemma_first_usable_same(c1@, c2@, r1.resolver.idx + 1);
    lemma_first_usable_bounds(c1@, r1.resolver.idx + 1);
    let j = first_usable(c1@, r1.resolver.idx + 1);
    if j < c1@.len() {
        assert(c1@[j]@ == c2@[j]@);
    }
    if r1.resolver.idx < c1@.len() {
        assert(c1@[r1.resolver.idx as int]@ == c2@[r1.resolver.idx as int]@);
    }
}

/// The actions of a whole resolution run, one per event, with the
/// final state.
pub open spec fn spec_run(r: Resolution, events: Seq<ResolveEvent>) -> (Resolution, Seq<
    ParseAction,
>)
    decreases events.len(),
{
    if events.len() == 0 {
        (r, Seq::empty())
    } else {
        let (r1, a) = spec_resolution_step(r, events[0]);
        let (rf, rest) = spec_run(r1, events.drop_first());
        (rf, seq![a] + rest)
    }
}

/// Resolution is deterministic: two resolutions of one message, fed
/// equal provider responses, take the same path action for action;
/// in particular every assembled record is the same value.
pub proof fn lemma_resolution_deterministic(
    r1: Resolution,
    r2: Resolution,
    events: Seq<ResolveEvent>,
)
    requires
        same_resolution(r1, r2),
        r1.wf(),
        r2.wf(),
    ensures
        ({
            let (f1, as1) = spec_run(r1, events);
            let (f2, as2) = spec_run(r2, events);
            &&& same_resolution(f1, f2)
            &&& as1.len() == as2.len()
            &&& forall|k: int| 0 <= k < as1.len() ==> same_action(#[trigger] as1[k], as2[k])
        }),
    decreases events.len(),
{
    if events.len() > 0 {
        lemma_step_deterministic(r1, r2, events[0]);
        let (r1n, a1) = spec_resolution_step(r1, events[0]);
        let (r2n, a2) = spec_resolution_step(r2, events[0]);
        crate::resolver::lemma_spec_step_preserves_wf(r1.resolver, events[0]);
        crate::resolver::lemma_spec_step_preserves_wf(r2.resolver, events[0]);
        lemma_resolution_deterministic(r1n, r2n, events.drop_first());
        let (f1, rest1) = spec_run(r1n, events.drop_first());
        let (f2, rest2) = spec_run(r2n, events.drop_first());
        let as1 = seq![a1] + rest1;
        let as2 = seq![a2] + rest2;
        assert forall|k: int| 0 <= k < as1.len() implies same_action(
            #[trigger] as1[k],
            as2[k],
        ) by {
            if k == 0 {
                assert(as1[0] == a1 && as2[0] == a2);
            } else {
                assert(as1[k] == rest1[k - 1] && as2[k] == rest2[k - 1]);
            }
        }
    }
}

/// Parsing is deterministic: two parses of one message by one parser
/// open equivalent resolutions and ask for the same first action.
pub proof fn lemma_parse_deterministic(
    p: DefaultParser,
    msg: MessageInfo,
    r1: (Resolution, ParseAction),
    r2: (Resolution, ParseAction),
)
    requires
        p.parse_post(msg, r1),
        p.parse_post(msg, r2),
    ensures
        same_resolution(r1.0, r2.0),
        same_action(r1.1, r2.1),
{
    let c1 = r1.0.resolver.candidates;
    let c2 = r2.0.resolver.candidates;
    if p.spec_admitted(msg) {
        assert(same_texts(c1@, c2@));
        lemma_first_usable_same(c1@, c2@, 0);
        lemma_first_usable_bounds(c1@, 0);
        let j = first_usable(c1@, 0);
        if j < c1@.len() {
            assert(c1@[j]@ == c2@[j]@);
        }
    }
}

/// A user's message never counts as a channel call and a channel's
/// always does, whatever record was resolved; a group as sender, or no
/// sender, drops the message.
pub proof fn lemma_sender_variant_decides_outcome(
    msg: MessageInfo,
    network: String,
    d: SolanaTokenOverview,
)
    ensures
        (msg.sender matches Option::Some(ChatSender::User { .. })) ==> (spec_assembled(
            msg,
            network,
            d,
        ) matches Option::Some(pr) && !pr.call.is_channel_call),
        (msg.sender matches Option::Some(ChatSender::Channel { .. })) ==> (spec_assembled(
            msg,
            network,
            d,
        ) matches Option::Some(pr) && pr.call.is_channel_call),
        (msg.sender matches Option::Some(ChatSender::Group { .. })) ==> spec_assembled(
            msg,
            network,
            d,
        ) is None,
        msg.sender is None ==> spec_assembled(msg, network, d) is None,
{
}

} // verus!
