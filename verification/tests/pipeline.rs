//! End-to-end behaviour of the parsing pipeline, driven with mocked
//! provider responses.

use call_parser::AccountSnapshot;
use call_parser::ChatSender;
use call_parser::DefaultParser;
use call_parser::GroupFilter;
use call_parser::MessageInfo;
use call_parser::MetadataResolver;
use call_parser::ParseAction;
use call_parser::ResolveAction;
use call_parser::ResolveEvent;
use call_parser::SolanaTokenOverview;
use call_parser::SolanaTokenOverviewData;
use call_parser::SolanaTokenOverviewResponse;
use call_parser::DexscreenerPair;
use call_parser::DexscreenerPairsResponse;
use call_parser::DexscreenerQuoteToken;
use call_parser::DexscreenerToken;
use call_parser::DexscreenerTransactionDetail;
use call_parser::DexscreenerTransactions;
use call_parser::TelegramGroup;

const ADDR_A: &str = "9VffBiow5r5YQzgK56rirEWpu45gZGrDWzm9JUt6zL9G";
const ADDR_B: &str = "So11111111111111111111111111111111111111112";
const RAYDIUM: &str = "675kPX9MHTjS2zt1qfr1NYHuzeLXfQM9H24wFSUt1Mp8";
const TOKEN_PROGRAM: &str = "TokenkegQfeZyiNwAJbNbGKPFXCWuBvf9Ss623VQ5DA";

fn sample_overview(address: &str, name: &str, symbol: &str) -> SolanaTokenOverview {
    SolanaTokenOverview {
        address: address.to_string(),
        decimals: 9,
        symbol: symbol.to_string(),
        name: name.to_string(),
        extensions: None,
        logo_uri: Some("https://example.org/logo.png".to_string()),
        liquidity: Some(250000.5f64.to_bits()),
        price: 1.5f64.to_bits(),
        last_trade_unix_time: Some(1700000000),
        last_trade_human_time: Some("2023-11-14 22:13:20".to_string()),
        supply: None,
        mc: Some(1000000.0f64.to_bits()),
        number_markets: Some(3),
        history_30m_price: None,
        price_change_30m_percent: None,
        v_30m_usd: None,
        trade_30m: None,
        unique_wallet_30m: None,
        view_30m: None,
        history_1h_price: None,
        price_change_1h_percent: None,
        v_1h_usd: None,
        trade_1h: None,
        unique_wallet_1h: None,
        view_1h: None,
        history_2h_price: None,
        price_change_2h_percent: None,
        v_2h_usd: None,
        trade_2h: None,
        unique_wallet_2h: None,
        view_2h: None,
        history_4h_price: None,
        price_change_4h_percent: None,
        v_4h_usd: None,
        trade_4h: None,
        unique_wallet_4h: None,
        view_4h: None,
        history_6h_price: None,
        price_change_6h_percent: None,
        v_6h_usd: None,
        trade_6h: None,
        unique_wallet_6h: None,
        view_6h: None,
        history_8h_price: None,
        price_change_8h_percent: None,
        v_8h_usd: None,
        trade_8h: None,
        unique_wallet_8h: None,
        view_8h: None,
        history_12h_price: None,
        price_change_12h_percent: None,
        v_12h_usd: None,
        trade_12h: None,
        unique_wallet_12h: None,
        view_12h: None,
        history_24h_price: None,
        price_change_24h_percent: None,
        v_24h_usd: None,
        trade_24h: None,
        unique_wallet_24h: None,
        view_24h: None,
    }
}

fn ok_response(d: SolanaTokenOverview) -> SolanaTokenOverviewResponse {
    SolanaTokenOverviewResponse { data: SolanaTokenOverviewData::Data(d), success: true }
}

fn mint_bytes() -> Vec<u8> {
    let mut v = vec![0u8; 82];
    v[45] = 1; // initialized
    v
}

fn token_account(addr_data: Vec<u8>) -> ResolveEvent {
    ResolveEvent::Account {
        info: Some(AccountSnapshot { owner: TOKEN_PROGRAM.to_string(), data: addr_data }),
    }
}

fn sample_pair(base: &str) -> DexscreenerPair {
    DexscreenerPair {
        chain_id: "solana".to_string(),
        dex_id: "raydium".to_string(),
        url: "https://example.org/pair".to_string(),
        pair_address: ADDR_A.to_string(),
        base_token: DexscreenerToken {
            address: base.to_string(),
            name: "Base".to_string(),
            symbol: "BASE".to_string(),
        },
        quote_token: DexscreenerQuoteToken { symbol: "SOL".to_string() },
        price_native: "0.5".to_string(),
        price_usd: None,
        txns: DexscreenerTransactions {
            m5: DexscreenerTransactionDetail { buys: 1, sells: 2 },
            h1: DexscreenerTransactionDetail { buys: 3, sells: 4 },
            h6: DexscreenerTransactionDetail { buys: 5, sells: 6 },
            h24: DexscreenerTransactionDetail { buys: 7, sells: 8 },
        },
        volume: call_parser::dexscreener::DexscreenerVolume {
            m5: 1.0f64.to_bits(),
            h1: 2.0f64.to_bits(),
            h6: 3.0f64.to_bits(),
            h24: 4.0f64.to_bits(),
        },
        price_change: call_parser::dexscreener::DexscreenerPriceChange {
            m5: 0.1f64.to_bits(),
            h1: 0.2f64.to_bits(),
            h6: 0.3f64.to_bits(),
            h24: 0.4f64.to_bits(),
        },
        liquidity: None,
        fdv: None,
        pair_created_at: Some(1700000000000),
    }
}

fn tracked_parser() -> DefaultParser {
    let dialogs = vec![
        TelegramGroup { telegram_id: 100, name: "alpha calls".to_string() },
        TelegramGroup { telegram_id: 200, name: "beta calls".to_string() },
    ];
    let filter = GroupFilter::init_tracked_groups(&vec![100, 200], dialogs);
    DefaultParser::new(filter)
}

fn user_message(text: &str) -> MessageInfo {
    MessageInfo {
        chat_id: 100,
        via_bot: false,
        timestamp: "2024-03-01 10:00:00".to_string(),
        text: text.to_string(),
        sender: Some(ChatSender::User {
            id: 42,
            first_name: "Ann".to_string(),
            last_name: None,
            username: Some("ann".to_string()),
        }),
    }
}

#[test]
fn empty_candidates_finish_immediately() {
    let (m, action) = MetadataResolver::new(Vec::new());
    assert_eq!(action, ResolveAction::Finished { result: None });
    let _ = m;
}

#[test]
fn unparsable_candidates_finish_without_fetch() {
    let (_, action) = MetadataResolver::new(vec![
        "zzzzzzzzzzzzzzzzzzzzzzzzzzzzzzzzzzzzzzzzzzzz".to_string(),
    ]);
    // 44 z's overflow the 32-byte key size, so no fetch is ever asked
    assert_eq!(action, ResolveAction::Finished { result: None });
}

#[test]
fn unparsable_candidate_skipped_to_next() {
    let (_, action) = MetadataResolver::new(vec![
        "zzzzzzzzzzzzzzzzzzzzzzzzzzzzzzzzzzzzzzzzzzzz".to_string(),
        ADDR_B.to_string(),
    ]);
    assert_eq!(action, ResolveAction::FetchAccount { address: ADDR_B.to_string() });
}

#[test]
fn first_success_wins_scenario() {
    let (m, a0) = MetadataResolver::new(vec![ADDR_A.to_string(), ADDR_B.to_string()]);
    assert_eq!(a0, ResolveAction::FetchAccount { address: ADDR_A.to_string() });
    // A is a token mint, but its overview fetch fails
    let (m, a1) = m.step(token_account(mint_bytes()));
    assert_eq!(a1, ResolveAction::FetchOverview { address: ADDR_A.to_string() });
    let (m, a2) = m.step(ResolveEvent::Overview { response: None });
    assert_eq!(a2, ResolveAction::FetchAccount { address: ADDR_B.to_string() });
    // B succeeds; its record is the result and resolution is over
    let (m, a3) = m.step(token_account(mint_bytes()));
    assert_eq!(a3, ResolveAction::FetchOverview { address: ADDR_B.to_string() });
    let d = sample_overview(ADDR_B, "Wrapped SOL", "SOL");
    let (_, a4) = m.step(ResolveEvent::Overview { response: Some(ok_response(d.clone())) });
    assert_eq!(a4, ResolveAction::Finished { result: Some(d) });
}

#[test]
fn pair_fallback_uses_base_token() {
    let (m, a0) = MetadataResolver::new(vec![ADDR_A.to_string()]);
    assert_eq!(a0, ResolveAction::FetchAccount { address: ADDR_A.to_string() });
    let (m, a1) = m.step(ResolveEvent::Account {
        info: Some(AccountSnapshot { owner: RAYDIUM.to_string(), data: vec![1, 2, 3] }),
    });
    assert_eq!(a1, ResolveAction::FetchPair { address: ADDR_A.to_string() });
    let resp = DexscreenerPairsResponse {
        schema_version: "1.0.0".to_string(),
        pair: Some(sample_pair(ADDR_B)),
        pairs: None,
    };
    let (m, a2) = m.step(ResolveEvent::Pair { response: Some(resp) });
    assert_eq!(a2, ResolveAction::FetchOverview { address: ADDR_B.to_string() });
    let d = sample_overview(ADDR_B, "Base", "BASE");
    let (_, a3) = m.step(ResolveEvent::Overview { response: Some(ok_response(d.clone())) });
    assert_eq!(a3, ResolveAction::Finished { result: Some(d) });
}

#[test]
fn pair_not_found_abandons_candidate() {
    let (m, _) = MetadataResolver::new(vec![ADDR_A.to_string()]);
    let (m, _) = m.step(ResolveEvent::Account {
        info: Some(AccountSnapshot { owner: RAYDIUM.to_string(), data: Vec::new() }),
    });
    let resp = DexscreenerPairsResponse {
        schema_version: "1.0.0".to_string(),
        pair: None,
        pairs: None,
    };
    let (_, a) = m.step(ResolveEvent::Pair { response: Some(resp) });
    assert_eq!(a, ResolveAction::Finished { result: None });
}

#[test]
fn account_fetch_failure_abandons_candidate() {
    let (m, _) = MetadataResolver::new(vec![ADDR_A.to_string()]);
    let (_, a) = m.step(ResolveEvent::Account { info: None });
    assert_eq!(a, ResolveAction::Finished { result: None });
}

#[test]
fn untracked_chat_is_dropped() {
    let parser = tracked_parser();
    let mut msg = user_message(&format!("buy {} now", ADDR_A));
    msg.chat_id = 999;
    let (_, action) = parser.parse(msg);
    assert_eq!(action, ParseAction::Finished { result: None });
}

#[test]
fn bot_message_is_dropped() {
    let parser = tracked_parser();
    let mut msg = user_message(&format!("buy {} now", ADDR_A));
    msg.via_bot = true;
    let (_, action) = parser.parse(msg);
    assert_eq!(action, ParseAction::Finished { result: None });
}

#[test]
fn message_without_candidates_is_dropped() {
    let parser = tracked_parser();
    let (_, action) = parser.parse(user_message("gm frens, nothing to see"));
    assert_eq!(action, ParseAction::Finished { result: None });
}

fn run_to_result(parser: &DefaultParser, msg: MessageInfo) -> Option<call_parser::ParseResult> {
    let (mut res, mut action) = parser.parse(msg);
    loop {
        match action {
            ParseAction::FetchAccount { address: _ } => {
                let (r2, a2) = res.step(token_account(mint_bytes()));
                res = r2;
                action = a2;
            }
            ParseAction::FetchOverview { address } => {
                let d = sample_overview(&address, "Example", "EXM");
                let (r2, a2) =
                    res.step(ResolveEvent::Overview { response: Some(ok_response(d)) });
                res = r2;
                action = a2;
            }
            ParseAction::FetchPair { address: _ } => {
                let resp = DexscreenerPairsResponse {
                    schema_version: "1.0.0".to_string(),
                    pair: Some(sample_pair(ADDR_B)),
                    pairs: None,
                };
                let (r2, a2) = res.step(ResolveEvent::Pair { response: Some(resp) });
                res = r2;
                action = a2;
            }
            ParseAction::Finished { result } => return result,
        }
    }
}

#[test]
fn user_sender_is_not_channel_call() {
    let parser = tracked_parser();
    let msg = user_message(&format!("buy {} now", ADDR_A));
    let pr = run_to_result(&parser, msg).expect("a result");
    assert!(!pr.call.is_channel_call);
    assert!(!pr.sender.is_channel);
    assert_eq!(pr.sender.telegram_id, 42);
    assert_eq!(pr.sender.first_name.as_deref(), Some("Ann"));
    assert_eq!(pr.token.address, ADDR_A);
    assert_eq!(pr.token.network, "solana");
    assert_eq!(pr.call.message_text, format!("buy {} now", ADDR_A));
    assert_eq!(pr.call.timestamp, "2024-03-01 10:00:00");
    assert_eq!(pr.call.token_call_data.price, 1.5f64.to_bits());
}

#[test]
fn channel_sender_is_channel_call() {
    let parser = tracked_parser();
    let mut msg = user_message(&format!("buy {} now", ADDR_A));
    msg.sender = Some(ChatSender::Channel { id: 7, title: "alpha calls".to_string() });
    let pr = run_to_result(&parser, msg).expect("a result");
    assert!(pr.call.is_channel_call);
    assert!(pr.sender.is_channel);
    assert_eq!(pr.sender.telegram_id, 7);
    assert_eq!(pr.sender.username.as_deref(), Some("alpha calls"));
    assert_eq!(pr.sender.first_name, None);
}

#[test]
fn group_sender_drops_message() {
    let parser = tracked_parser();
    let mut msg = user_message(&format!("buy {} now", ADDR_A));
    msg.sender = Some(ChatSender::Group { id: 5 });
    assert_eq!(run_to_result(&parser, msg), None);
}

#[test]
fn missing_sender_drops_message() {
    let parser = tracked_parser();
    let mut msg = user_message(&format!("buy {} now", ADDR_A));
    msg.sender = None;
    assert_eq!(run_to_result(&parser, msg), None);
}

#[test]
fn resolving_twice_gives_identical_results() {
    let parser = tracked_parser();
    let msg = user_message(&format!("grab {} fast", ADDR_A));
    let first = run_to_result(&parser, msg.clone());
    let second = run_to_result(&parser, msg);
    assert!(first.is_some());
    assert_eq!(first, second);
}

#[test]
fn format_token_data_splits_record() {
    let parser = tracked_parser();
    let d = sample_overview(ADDR_A, "Example", "EXM");
    let (token, stats) = parser.format_token_data(d);
    assert_eq!(token.address, ADDR_A);
    assert_eq!(token.decimals, 9);
    assert_eq!(token.name, "Example");
    assert_eq!(token.symbol, "EXM");
    assert_eq!(token.network, "solana");
    assert_eq!(token.logo_uri.as_deref(), Some("https://example.org/logo.png"));
    assert_eq!(stats.price, 1.5f64.to_bits());
    assert_eq!(stats.liquidity, Some(250000.5f64.to_bits()));
    assert_eq!(stats.number_markets, Some(3));
    assert_eq!(stats.last_trade_unix_time, Some(1700000000));
}
