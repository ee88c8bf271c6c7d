//! Component behaviour: classification, group lookup, configuration
//! parsing, and the provider-response decisions.

use call_parser::classify_account;
use call_parser::AccountClassification;
use call_parser::AccountSnapshot;
use call_parser::DefaultParser;
use call_parser::DexscreenerPairsResponse;
use call_parser::GroupFilter;
use call_parser::TelegramConfig;
use call_parser::TelegramGroup;
use call_parser::dexscreener::pair_base_token;
use call_parser::metadata::overview_result;
use call_parser::SolanaTokenOverviewData;
use call_parser::SolanaTokenOverviewResponse;
use call_parser::type_of;

const RAYDIUM: &str = "675kPX9MHTjS2zt1qfr1NYHuzeLXfQM9H24wFSUt1Mp8";

fn mint_bytes() -> Vec<u8> {
    let mut v = vec![0u8; 82];
    v[45] = 1; // initialized
    v
}

#[test]
fn pool_owner_classifies_as_pair() {
    let account = AccountSnapshot { owner: RAYDIUM.to_string(), data: vec![1, 2, 3] };
    assert_eq!(classify_account(&account), AccountClassification::LiquidityPair);
}

#[test]
fn pool_owner_overrides_mint_data() {
    // even data that decodes as a mint does not matter for pool accounts
    let account = AccountSnapshot { owner: RAYDIUM.to_string(), data: mint_bytes() };
    assert_eq!(classify_account(&account), AccountClassification::LiquidityPair);
}

#[test]
fn mint_state_classifies_as_token() {
    let account = AccountSnapshot { owner: "SomeOtherOwner".to_string(), data: mint_bytes() };
    assert_eq!(classify_account(&account), AccountClassification::Token);
}

#[test]
fn uninitialized_mint_classifies_as_other() {
    let account = AccountSnapshot { owner: "SomeOtherOwner".to_string(), data: vec![0u8; 82] };
    assert_eq!(classify_account(&account), AccountClassification::Other);
}

#[test]
fn wrong_length_data_classifies_as_other() {
    let account = AccountSnapshot { owner: "SomeOtherOwner".to_string(), data: vec![1u8; 40] };
    assert_eq!(classify_account(&account), AccountClassification::Other);
}

#[test]
fn tracked_groups_are_filtered_and_deduplicated() {
    let dialogs = vec![
        TelegramGroup { telegram_id: 1, name: "one".to_string() },
        TelegramGroup { telegram_id: 2, name: "two".to_string() },
        TelegramGroup { telegram_id: 1, name: "one again".to_string() },
        TelegramGroup { telegram_id: 3, name: "three".to_string() },
    ];
    let filter = GroupFilter::init_tracked_groups(&vec![1, 3, 4], dialogs);
    assert_eq!(filter.groups.len(), 2);
    assert!(filter.accepts(1));
    assert!(!filter.accepts(2));
    assert!(filter.accepts(3));
    assert!(!filter.accepts(4));
}

#[test]
fn parses_chat_id_list() {
    let ids = TelegramConfig::load_tracked_chat_ids("123, -456 ,789").expect("well-formed");
    assert_eq!(ids, vec![123, -456, 789]);
}

#[test]
fn parses_signed_and_padded_entries() {
    let ids = TelegramConfig::load_tracked_chat_ids("\t+7 , -0012\n").expect("well-formed");
    assert_eq!(ids, vec![7, -12]);
}

#[test]
fn parses_extreme_values() {
    let ids = TelegramConfig::load_tracked_chat_ids(
        "9223372036854775807,-9223372036854775808",
    ).expect("well-formed");
    assert_eq!(ids, vec![i64::MAX, i64::MIN]);
}

#[test]
fn rejects_out_of_range_value() {
    assert_eq!(TelegramConfig::load_tracked_chat_ids("9223372036854775808"), None);
    assert_eq!(TelegramConfig::load_tracked_chat_ids("-9223372036854775809"), None);
    assert_eq!(
        TelegramConfig::load_tracked_chat_ids("111111111111111111111111111111111111111"),
        None,
    );
}

#[test]
fn rejects_malformed_entries() {
    assert_eq!(TelegramConfig::load_tracked_chat_ids("12a"), None);
    assert_eq!(TelegramConfig::load_tracked_chat_ids("12, ,34"), None);
    assert_eq!(TelegramConfig::load_tracked_chat_ids("12,,34"), None);
    assert_eq!(TelegramConfig::load_tracked_chat_ids(""), None);
    assert_eq!(TelegramConfig::load_tracked_chat_ids("-"), None);
    assert_eq!(TelegramConfig::load_tracked_chat_ids("1,2,"), None);
}

#[test]
fn overview_requires_success_flag() {
    let resp = SolanaTokenOverviewResponse {
        data: SolanaTokenOverviewData::Empty,
        success: false,
    };
    assert_eq!(overview_result(Some(resp)), None);
    assert_eq!(overview_result(None), None);
}

#[test]
fn overview_empty_payload_is_nothing() {
    let resp = SolanaTokenOverviewResponse {
        data: SolanaTokenOverviewData::Empty,
        success: true,
    };
    assert_eq!(overview_result(Some(resp)), None);
}

#[test]
fn pair_lookup_without_pair_is_nothing() {
    let resp = DexscreenerPairsResponse {
        schema_version: "1.0.0".to_string(),
        pair: None,
        pairs: None,
    };
    assert_eq!(pair_base_token(Some(resp)), None);
    assert_eq!(pair_base_token(None), None);
}

#[test]
fn type_labels_name_the_types() {
    let group = TelegramGroup { telegram_id: 1, name: "one".to_string() };
    assert_eq!(type_of(&group), "TelegramGroup");
    let filter = GroupFilter { groups: Vec::new() };
    assert_eq!(type_of(&filter), "GroupFilter");
    let parser = DefaultParser::new(GroupFilter { groups: Vec::new() });
    assert_eq!(type_of(&parser), "DefaultParser");
}
