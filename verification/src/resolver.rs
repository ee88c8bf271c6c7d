//! Metadata resolution: a state machine that turns a list of candidate
//! addresses into at most one token record.
//!
//! The machine owns every decision; fetching is left to its driver.
//! Each step hands back an action: fetch an account, fetch a token
//! overview from the primary provider, look a pair up at the secondary
//! provider, or finish. The driver performs the fetch and feeds the
//! outcome back as an event. Candidates are tried strictly in order;
//! a candidate that cannot be examined or yields nothing is abandoned
//! and the next one is tried; the first record fetched successfully
//! finishes the resolution, and candidates after it are never touched.

use vstd::prelude::*;

use crate::classify::AccountClassification;
use crate::classify::AccountSnapshot;
use crate::classify::classify_account;
use crate::classify::mint_decodes;
use crate::classify::pubkey_parses;
use crate::classify::pubkey_valid;
use crate::classify::spec_classify;
use crate::dexscreener::DexscreenerPairsResponse;
use crate::dexscreener::pair_base_token;
use crate::dexscreener::spec_pair_base_token;
use crate::metadata::SolanaTokenOverview;
use crate::metadata::SolanaTokenOverviewResponse;
use crate::metadata::overview_result;
use crate::metadata::spec_overview_result;

verus! {

/// What the resolver is waiting for.
#[derive(Debug, Clone, PartialEq)]
pub enum ResolvePhase {
    /// The on-chain account of the current candidate.
    AwaitAccount,
    /// A token overview from the primary provider.
    AwaitOverview,
    /// A pair lookup from the secondary provider.
    AwaitPair,
    /// Nothing: resolution is over; its outcome went out with the
    /// final [`ResolveAction::Finished`] action.
    Done,
}

/// What the driver must do next.
#[derive(Debug, Clone, PartialEq)]
pub enum ResolveAction {
    /// Fetch the on-chain account state of `address`.
    FetchAccount {
        /// The account's address, in base-58.
        address: String,
    },
    /// Fetch the token overview of `address` from the primary provider.
    FetchOverview {
        /// The token's mint address, in base-58.
        address: String,
    },
    /// Look the pair `address` up at the secondary provider.
    FetchPair {
        /// The pair account's address, in base-58.
        address: String,
    },
    /// Resolution is over; nothing more to do.
    Finished {
        /// The resolved record, or nothing.
        result: Option<SolanaTokenOverview>,
    },
}

/// What a fetch came back with. A `None` payload stands for any
/// failure: transport, deserialization, or an account that does not
/// exist.
#[derive(Debug, Clone, PartialEq)]
pub enum ResolveEvent {
    /// Outcome of an account fetch.
    Account {
        /// The account's owner and data, if the fetch succeeded.
        info: Option<AccountSnapshot>,
    },
    /// Outcome of a token-overview fetch.
    Overview {
        /// The deserialized response, if the transport succeeded.
        response: Option<SolanaTokenOverviewResponse>,
    },
    /// Outcome of a pair lookup.
    Pair {
        /// The deserialized response, if the transport succeeded.
        response: Option<DexscreenerPairsResponse>,
    },
}

/// Resolves a list of candidate addresses into at most one token
/// record, driven by events.
#[derive(Debug, Clone, PartialEq)]
pub struct MetadataResolver {
    /// The candidate addresses, in order of appearance.
    pub candidates: Vec<String>,
    /// The candidate currently under examination.
    pub idx: usize,
    /// What the machine is waiting for.
    pub phase: ResolvePhase,
}

/// The first candidate at or after `i` whose text parses as a public
/// key, or the list's length if there is none.
pub open spec fn first_usable(cands: Seq<String>, i: int) -> int
    decreases cands.len() - i,
{
    if i < 0 || i >= cands.len() {
        cands.len() as int
    } else if pubkey_valid(cands[i]@) {
        i
    } else {
        first_usable(cands, i + 1)
    }
}

/// Move to the first usable candidate at or after `i`: ask for its
/// account, or finish empty-handed when none is left. A candidate
/// whose text does not parse is classified as other and skipped
/// without any fetch.
pub open spec fn spec_advance(cands: Vec<String>, i: int) -> (MetadataResolver, ResolveAction) {
    let j = first_usable(cands@, i);
    if j == cands@.len() {
        (
            MetadataResolver {
                candidates: cands,
                idx: j as usize,
                phase: ResolvePhase::Done,
            },
            ResolveAction::Finished { result: Option::None },
        )
    } else {
        (
            MetadataResolver { candidates: cands, idx: j as usize, phase: ResolvePhase::AwaitAccount },
            ResolveAction::FetchAccount { address: cands@[j] },
        )
    }
}

/// Where a fresh resolution of `cands` starts.
pub open spec fn spec_resolver_start(cands: Vec<String>) -> (MetadataResolver, ResolveAction) {
    spec_advance(cands, 0)
}

/// The transition function: what one event does to the machine and
/// which action follows.
pub open spec fn spec_step(pre: MetadataResolver, event: ResolveEvent) -> (
    MetadataResolver,
    ResolveAction,
) {
    match (pre.phase, event) {
        (ResolvePhase::AwaitAccount, ResolveEvent::Account { info }) => {
            let class = match info {
                Option::Some(a) => spec_classify(a.owner@, mint_decodes(a.data@)),
                Option::None => AccountClassification::Other,
            };
            match class {
                AccountClassification::Token => (
                    MetadataResolver {
                        candidates: pre.candidates,
                        idx: pre.idx,
                        phase: ResolvePhase::AwaitOverview,
                    },
                    ResolveAction::FetchOverview { address: pre.candidates@[pre.idx as int] },
                ),
                AccountClassification::LiquidityPair => (
                    MetadataResolver {
                        candidates: pre.candidates,
                        idx: pre.idx,
                        phase: ResolvePhase::AwaitPair,
                    },
                    ResolveAction::FetchPair { address: pre.candidates@[pre.idx as int] },
                ),
                AccountClassification::Other => spec_advance(pre.candidates, pre.idx + 1),
            }
        },
        (ResolvePhase::AwaitOverview, ResolveEvent::Overview { response }) => match spec_overview_result(
            response,
        ) {
            Option::Some(d) => (
                MetadataResolver {
                    candidates: pre.candidates,
                    idx: pre.idx,
                    phase: ResolvePhase::Done,
                },
                ResolveAction::Finished { result: Option::Some(d) },
            ),
            Option::None => spec_advance(pre.candidates, pre.idx + 1),
        },
        (ResolvePhase::AwaitPair, ResolveEvent::Pair { response }) => match spec_pair_base_token(
            response,
        ) {
            Option::Some(addr) => (
                MetadataResolver {
                    candidates: pre.candidates,
                    idx: pre.idx,
                    phase: ResolvePhase::AwaitOverview,
                },
                ResolveAction::FetchOverview { address: addr },
            ),
            Option::None => spec_advance(pre.candidates, pre.idx + 1),
        },
        _ => (pre, ResolveAction::Finished { result: Option::None }),
    }
}

impl MetadataResolver {
    /// The candidate addresses the resolver was started with.
    pub open spec fn spec_candidates(self) -> Seq<String> {
        self.candidates@
    }

    /// Which candidate is under examination.
    pub open spec fn spec_idx(self) -> int {
        self.idx as int
    }

    /// The machine's phase.
    pub open spec fn spec_phase(self) -> ResolvePhase {
        self.phase
    }

    /// Whether resolution has ended.
    pub open spec fn is_done(self) -> bool {
        self.phase is Done
    }

    /// The machine never runs past its candidate list, and while it
    /// waits for a fetch it examines a real candidate.
    pub open spec fn wf(self) -> bool {
        &&& self.idx <= self.candidates@.len()
        &&& !self.is_done() ==> self.idx < self.candidates@.len()
    }

    /// Whether `event` answers what the machine is waiting for.
    pub open spec fn expects(self, event: ResolveEvent) -> bool {
        match (self.phase, event) {
            (ResolvePhase::AwaitAccount, ResolveEvent::Account { .. }) => true,
            (ResolvePhase::AwaitOverview, ResolveEvent::Overview { .. }) => true,
            (ResolvePhase::AwaitPair, ResolveEvent::Pair { .. }) => true,
            _ => false,
        }
    }

    /// Start resolving `candidates`: the first action concerns the
    /// first usable candidate, and an empty list finishes at once with
    /// no result and no fetch ever requested.
    pub fn new(candidates: Vec<String>) -> (r: (MetadataResolver, ResolveAction))
        ensures
            r == spec_resolver_start(candidates),
            r.0.wf(),
            candidates@.len() == 0 ==> r.1 == (ResolveAction::Finished {
                result: Option::<SolanaTokenOverview>::None,
            }),
    {
        Self::advance(candidates, 0)
    }

    /// Move to the first usable candidate at or after `from`.
    fn advance(candidates: Vec<String>, from: usize) -> (r: (MetadataResolver, ResolveAction))
        requires
            from <= candidates@.len(),
        ensures
            r == spec_advance(candidates, from as int),
            r.0.wf(),
        decreases candidates@.len() - from,
    {
        if from == candidates.len() {
            (
                MetadataResolver {
                    candidates,
                    idx: from,
                    phase: ResolvePhase::Done,
                },
                ResolveAction::Finished { result: Option::None },
            )
        } else if pubkey_parses(candidates[from].as_str()) {
            let address = candidates[from].clone();
            (
                MetadataResolver { candidates, idx: from, phase: ResolvePhase::AwaitAccount },
                ResolveAction::FetchAccount { address },
            )
        } else {
            Self::advance(candidates, from + 1)
        }
    }

    /// Feed the machine one event; it returns its successor and the
    /// next action, exactly as the transition function says.
    pub fn step(self, event: ResolveEvent) -> (r: (MetadataResolver, ResolveAction))
        requires
            self.wf(),
            self.expects(event),
        ensures
            r == spec_step(self, event),
            r.0.wf(),
    {
        let MetadataResolver { candidates, idx, phase } = self;
        match (phase, event) {
            (ResolvePhase::AwaitAccount, ResolveEvent::Account { info }) => {
                let class = match &info {
                    Option::Some(a) => classify_account(a),
                    Option::None => AccountClassification::Other,
                };
                match class {
                    AccountClassification::Token => {
                        let address = candidates[idx].clone();
                        (
                            MetadataResolver {
                                candidates,
                                idx,
                                phase: ResolvePhase::AwaitOverview,
                            },
                            ResolveAction::FetchOverview { address },
                        )
                    },
                    AccountClassification::LiquidityPair => {
                        let address = candidates[idx].clone();
                        (
                            MetadataResolver { candidates, idx, phase: ResolvePhase::AwaitPair },
                            ResolveAction::FetchPair { address },
                        )
                    },
                    AccountClassification::Other => {
                        let n = candidates.len();
                        assert(idx < n);
                        Self::advance(candidates, idx + 1)
                    },
                }
            },
            (ResolvePhase::AwaitOverview, ResolveEvent::Overview { response }) => {
                match overview_result(response) {
                    Option::Some(d) => (
                        MetadataResolver {
                            candidates,
                            idx,
                            phase: ResolvePhase::Done,
                        },
                        ResolveAction::Finished { result: Option::Some(d) },
                    ),
                    Option::None => {
                        let n = candidates.len();
                        assert(idx < n);
                        Self::advance(candidates, idx + 1)
                    },
                }
            },
            (ResolvePhase::AwaitPair, ResolveEvent::Pair { response }) => {
                match pair_base_token(response) {
                    Option::Some(address) => (
                        MetadataResolver { candidates, idx, phase: ResolvePhase::AwaitOverview },
                        ResolveAction::FetchOverview { address },
                    ),
                    Option::None => {
                        let n = candidates.len();
                        assert(idx < n);
                        Self::advance(candidates, idx + 1)
                    },
                }
            },
            (phase, _) => (
                MetadataResolver { candidates, idx, phase },
                ResolveAction::Finished { result: Option::None },
            ),
        }
    }
}

/// Where the first usable candidate lies: within the list, at or
/// after the starting point, and actually usable.
pub proof fn lemma_first_usable_bounds(cands: Seq<String>, i: int)
    ensures
        0 <= first_usable(cands, i) <= cands.len(),
        first_usable(cands, i) < cands.len() ==> i <= first_usable(cands, i) && pubkey_valid(
            cands[first_usable(cands, i)]@,
        ),
    decreases cands.len() - i,
{
    if 0 <= i && i < cands.len() && !pubkey_valid(cands[i]@) {
        lemma_first_usable_bounds(cands, i + 1);
    }
}

/// The transition function keeps the machine within its candidates.
pub proof fn lemma_spec_step_preserves_wf(m: MetadataResolver, e: ResolveEvent)
    requires
        m.wf(),
    ensures
        spec_step(m, e).0.wf(),
{
    lemma_first_usable_bounds(m.candidates@, m.idx + 1);
}

/// Candidate lists whose texts agree are examined alike: the first
/// usable candidate is at the same position.
pub proof fn lemma_first_usable_same(a: Seq<String>, b: Seq<String>, i: int)
    requires
        a.len() == b.len(),
        forall|k: int| 0 <= k < a.len() ==> (#[trigger] a[k])@ == b[k]@,
    ensures
        first_usable(a, i) == first_usable(b, i),
    decreases a.len() - i,
{
    if 0 <= i && i < a.len() {
        assert(a[i]@ == b[i]@);
        if !pubkey_valid(a[i]@) {
            lemma_first_usable_same(a, b, i + 1);
        }
    }
}

/// A successful overview response finishes the resolution at once with
/// that record, whatever candidates remain untried.
pub proof fn lemma_success_short_circuits(
    m: MetadataResolver,
    d: SolanaTokenOverview,
    resp: SolanaTokenOverviewResponse,
)
    requires
        m.spec_phase() is AwaitOverview,
        resp == (SolanaTokenOverviewResponse {
            data: crate::metadata::SolanaTokenOverviewData::Data(d),
            success: true,
        }),
    ensures
        ({
            let (m1, a1) = spec_step(m, ResolveEvent::Overview { response: Option::Some(resp) });
            &&& a1 == (ResolveAction::Finished { result: Option::Some(d) })
            &&& m1.is_done()
        }),
{
}

/// First success wins. With candidates `[a, b]`, the machine waiting
/// for `a`'s overview: when `a`'s fetch fails, the machine turns to
/// `b` and to `b` alone; when `b` classifies as a token and its
/// overview arrives, that record is the result and the resolution is
/// finished — `step` demands an unfinished machine, so no fetch can
/// ever be asked for anything after `b`.
pub proof fn lemma_first_success_wins(
    m0: MetadataResolver,
    acct: AccountSnapshot,
    resp: SolanaTokenOverviewResponse,
    d: SolanaTokenOverview,
)
    requires
        m0.wf(),
        m0.spec_candidates().len() == 2,
        m0.spec_idx() == 0,
        m0.spec_phase() is AwaitOverview,
        pubkey_valid(m0.spec_candidates()[1]@),
        spec_classify(acct.owner@, mint_decodes(acct.data@)) == AccountClassification::Token,
        resp == (SolanaTokenOverviewResponse {
            data: crate::metadata::SolanaTokenOverviewData::Data(d),
            success: true,
        }),
    ensures
        ({
            let (m1, a1) = spec_step(m0, ResolveEvent::Overview { response: Option::None });
            let (m2, a2) = spec_step(m1, ResolveEvent::Account { info: Option::Some(acct) });
            let (m3, a3) = spec_step(
                m2,
                ResolveEvent::Overview { response: Option::Some(resp) },
            );
            &&& a1 == (ResolveAction::FetchAccount { address: m0.spec_candidates()[1] })
            &&& a2 == (ResolveAction::FetchOverview { address: m0.spec_candidates()[1] })
            &&& a3 == (ResolveAction::Finished { result: Option::Some(d) })
            &&& m3.is_done()
        }),
{
    assert(first_usable(m0.candidates@, 1) == 1);
}

} // verus!
