use xfighter_contracts::text::{account_owner, chain_id, decimal_text, join, text_is_empty};
use xfighter_contracts::xfighter::{ChildAppInfo, XfighterService, XfighterState};
use xfighter_contracts::store::Table;

fn owner(text: &str) -> Option<String> {
    account_owner(&text.to_string())
}

fn chain(text: &str) -> Option<String> {
    chain_id(&text.to_string())
}

#[test]
fn accounts_of_three_lengths_are_read() {
    let long = format!("0x{}", "ab".repeat(32));
    let short = format!("0x{}", "cd".repeat(20));
    assert_eq!(owner(&long), Some(long.clone()));
    assert_eq!(owner(&short), Some(short.clone()));
    assert_eq!(owner("0x00"), Some("0x00".to_string()));
    assert_eq!(owner("0x7f"), Some("0x7f".to_string()));
}

#[test]
fn accounts_are_written_back_in_lower_case() {
    let upper = format!("0x{}", "AB".repeat(32));
    let mixed = format!("0x{}", "aB".repeat(20));
    assert_eq!(owner(&upper), Some(format!("0x{}", "ab".repeat(32))));
    assert_eq!(owner(&mixed), Some(format!("0x{}", "ab".repeat(20))));
    assert_eq!(owner("0xFF"), Some("0xff".to_string()));
    assert_eq!(owner("0x0A"), Some("0x0a".to_string()));
}

#[test]
fn other_texts_are_not_accounts() {
    assert_eq!(owner(""), None);
    assert_eq!(owner("0x"), None);
    assert_eq!(owner("0x0"), None);
    assert_eq!(owner("0x000"), None);
    assert_eq!(owner("0xzz"), None);
    assert_eq!(owner("00"), None);
    assert_eq!(owner("0X00"), None);
    assert_eq!(owner(&"ab".repeat(32)), None);
    assert_eq!(owner(&format!("0x{}", "ab".repeat(31))), None);
    assert_eq!(owner(&format!("0x{}", "ab".repeat(33))), None);
    assert_eq!(owner(&format!("0x{}g", "a".repeat(63))), None);
    assert_eq!(owner(&format!("0x{}", "ab".repeat(21))), None);
    assert_eq!(owner(&format!("0x{}é", "a".repeat(62))), None);
    assert_eq!(owner(&format!(" 0x{}", "ab".repeat(32))), None);
    assert_eq!(owner("alice"), None);
}

#[test]
fn chains_are_sixty_four_hex_digits() {
    let id = "0123456789abcdef".repeat(4);
    assert_eq!(chain(&id), Some(id.clone()));
    assert_eq!(chain(&id.to_uppercase()), Some(id.clone()));
    assert_eq!(chain(&format!("0x{id}")), None);
    assert_eq!(chain(&id[1..]), None);
    assert_eq!(chain(&format!("{id}0")), None);
    assert_eq!(chain(&format!("{id}00")), None);
    assert_eq!(chain(&format!("{}g", &id[1..])), None);
    assert_eq!(chain(""), None);
}

#[test]
fn numbers_are_written_in_decimal() {
    assert_eq!(decimal_text(0), "0");
    assert_eq!(decimal_text(7), "7");
    assert_eq!(decimal_text(10), "10");
    assert_eq!(decimal_text(1_234_567_890), "1234567890");
    assert_eq!(decimal_text(9_007_199_254_740_993), "9007199254740993");
    assert_eq!(decimal_text(u64::MAX), "18446744073709551615");
    for n in [1u64, 9, 11, 99, 100, 101, 1000, 65_535, 4_294_967_296] {
        assert_eq!(decimal_text(n), n.to_string());
    }
}

#[test]
fn texts_are_joined_and_tested_for_emptiness() {
    assert_eq!(join("Season ", "12"), "Season 12");
    assert_eq!(join("", ""), "");
    assert!(text_is_empty(&String::new()));
    assert!(!text_is_empty(&" ".to_string()));
}

#[test]
fn application_hashes_are_written_in_hex() {
    let mut child_apps = Table::new();
    child_apps.insert("chain-1".to_string(), vec![0x00, 0x0f, 0x10, 0xab, 0xff]);
    child_apps.insert("chain-2".to_string(), Vec::new());
    child_apps.insert("chain-3".to_string(), (0u8..32).collect());
    let service = XfighterService {
        state: XfighterState { match_results: Table::new(), opened_chains: Table::new(), child_apps },
    };
    assert_eq!(
        service.all_child_apps(),
        vec![
            ChildAppInfo { chain_id: "chain-1".to_string(), app_id: "000f10abff".to_string() },
            ChildAppInfo { chain_id: "chain-2".to_string(), app_id: String::new() },
            ChildAppInfo {
                chain_id: "chain-3".to_string(),
                app_id: "000102030405060708090a0b0c0d0e0f101112131415161718191a1b1c1d1e1f".to_string(),
            },
        ]
    );
}
