use reward_ledger::config::{TokenConfig, STANDARD_MAX_SUPPLY, STANDARD_MINT_PER_LIKE};
use reward_ledger::error::LedgerError;
use reward_ledger::ledger::RewardLedger;
use reward_ledger::like_key::like_key;

fn standard_ledger() -> RewardLedger {
    RewardLedger::new(TokenConfig::standard("admin".to_string()))
}

fn config_with(total: u64, max: Option<u64>, per_like: u64) -> TokenConfig {
    let mut config = TokenConfig::standard("admin".to_string());
    config.total_supply = total;
    config.max_supply = max;
    config.mint_per_like = per_like;
    config
}

#[test]
fn standard_config_values() {
    let config = TokenConfig::standard("admin".to_string());
    assert_eq!(config.name, "EatReview Token");
    assert_eq!(config.symbol, "ERT");
    assert_eq!(config.decimals, 8);
    assert_eq!(config.total_supply, 0);
    assert_eq!(config.max_supply, Some(100_000_000_000_000_000));
    assert_eq!(config.mint_per_like, 100_000_000);
    assert_eq!(config.authority, "admin");
    assert_eq!(STANDARD_MAX_SUPPLY, 1_000_000_000 * 100_000_000);
    assert_eq!(STANDARD_MINT_PER_LIKE, 100_000_000);
}

#[test]
fn new_ledger_is_empty() {
    let ledger = standard_ledger();
    assert_eq!(ledger.get_like_count("r1"), 0);
    assert!(!ledger.has_liked("r1", "alice"));
    assert_eq!(ledger.balance_of("alice"), 0);
    assert_eq!(ledger.total_supply(), 0);
    assert_eq!(ledger.name(), "EatReview Token");
    assert_eq!(ledger.symbol(), "ERT");
    assert_eq!(ledger.decimals(), 8);
}

#[test]
fn first_like_is_recorded_and_rewarded() {
    let mut ledger = standard_ledger();
    let outcome = ledger.record_like_and_reward("r1", "alice", 7).unwrap();
    assert!(outcome.liked);
    assert!(outcome.minted);
    assert_eq!(outcome.message, "Review liked and tokens minted successfully");
    assert_eq!(ledger.get_like_count("r1"), 1);
    assert!(ledger.has_liked("r1", "alice"));
    assert_eq!(ledger.balance_of("alice"), 100_000_000);
    assert_eq!(ledger.total_supply(), 100_000_000);
}

#[test]
fn repeated_like_is_refused_and_changes_nothing() {
    let mut ledger = standard_ledger();
    ledger.record_like_and_reward("r1", "alice", 7).unwrap();
    let second = ledger.record_like_and_reward("r1", "alice", 8);
    assert!(matches!(second, Err(LedgerError::AlreadyLiked)));
    assert_eq!(ledger.get_like_count("r1"), 1);
    assert_eq!(ledger.balance_of("alice"), 100_000_000);
    assert_eq!(ledger.total_supply(), 100_000_000);
}

#[test]
fn record_like_twice_counts_once() {
    let mut ledger = standard_ledger();
    assert_eq!(ledger.record_like("r1", "alice", 1), Ok(()));
    assert_eq!(ledger.record_like("r1", "alice", 2), Err(LedgerError::AlreadyLiked));
    assert_eq!(ledger.get_like_count("r1"), 1);
    assert_eq!(ledger.balance_of("alice"), 0);
}

#[test]
fn like_near_the_cap_is_recorded_but_not_rewarded() {
    let per_like = 100_000_000;
    let max = 1_000_000_000;
    let total = max - per_like / 2;
    let mut ledger = RewardLedger::new(config_with(total, Some(max), per_like));
    let outcome = ledger.record_like_and_reward("r1", "bob", 3).unwrap();
    assert!(outcome.liked);
    assert!(!outcome.minted);
    assert_eq!(outcome.message, "Review liked but token minting failed: Maximum supply reached");
    assert!(ledger.has_liked("r1", "bob"));
    assert_eq!(ledger.get_like_count("r1"), 1);
    assert_eq!(ledger.total_supply(), total);
    assert_eq!(ledger.balance_of("bob"), 0);
}

#[test]
fn mint_exactly_to_the_cap_succeeds() {
    let mut ledger = RewardLedger::new(config_with(900, Some(1000), 100));
    assert_eq!(ledger.mint_for_like("bob", 1), Ok(()));
    assert_eq!(ledger.total_supply(), 1000);
    assert_eq!(ledger.balance_of("bob"), 100);
    assert_eq!(ledger.mint_for_like("bob", 2), Err(LedgerError::SupplyCapReached));
    assert_eq!(ledger.total_supply(), 1000);
    assert_eq!(ledger.balance_of("bob"), 100);
}

#[test]
fn count_is_the_number_of_distinct_likers() {
    let mut ledger = standard_ledger();
    ledger.record_like("r1", "alice", 1).unwrap();
    ledger.record_like("r1", "bob", 2).unwrap();
    ledger.record_like("r2", "alice", 3).unwrap();
    assert!(ledger.record_like("r1", "bob", 4).is_err());
    ledger.record_like("r1", "carol", 5).unwrap();
    assert_eq!(ledger.get_like_count("r1"), 3);
    assert_eq!(ledger.get_like_count("r2"), 1);
    assert_eq!(ledger.get_like_count("r3"), 0);
    assert!(ledger.has_liked("r2", "alice"));
    assert!(!ledger.has_liked("r2", "bob"));
}

#[test]
fn balance_after_n_mints_is_n_rewards() {
    let mut ledger = standard_ledger();
    for now in 0..5u64 {
        assert_eq!(ledger.mint_for_like("alice", now), Ok(()));
    }
    assert_eq!(ledger.mint_for_like("bob", 9), Ok(()));
    assert_eq!(ledger.balance_of("alice"), 5 * 100_000_000);
    assert_eq!(ledger.balance_of("bob"), 100_000_000);
    assert_eq!(ledger.total_supply(), 6 * 100_000_000);
}

#[test]
fn supply_never_passes_the_cap() {
    let mut ledger = RewardLedger::new(config_with(0, Some(250), 100));
    let mut minted = 0;
    for now in 0..10u64 {
        if ledger.mint_for_like("alice", now).is_ok() {
            minted += 1;
        }
        assert!(ledger.total_supply() <= 250);
    }
    assert_eq!(minted, 2);
    assert_eq!(ledger.total_supply(), 200);
    assert_eq!(ledger.balance_of("alice"), 200);
}

#[test]
fn supply_overflow_under_a_cap_is_reported() {
    let mut ledger = RewardLedger::new(config_with(u64::MAX - 5, Some(u64::MAX), 10));
    assert_eq!(ledger.mint_for_like("alice", 1), Err(LedgerError::Overflow));
    assert_eq!(ledger.total_supply(), u64::MAX - 5);
    assert_eq!(ledger.balance_of("alice"), 0);
}

#[test]
fn supply_overflow_without_a_cap_is_reported_and_writes_nothing() {
    let mut ledger = RewardLedger::new(config_with(u64::MAX - 5, None, 10));
    assert_eq!(ledger.mint_for_like("alice", 1), Err(LedgerError::Overflow));
    assert_eq!(ledger.total_supply(), u64::MAX - 5);
    assert_eq!(ledger.balance_of("alice"), 0);
}

#[test]
fn balance_overflow_is_reported() {
    let mut ledger = RewardLedger::new(config_with(0, None, u64::MAX - 1));
    assert_eq!(ledger.mint_for_like("alice", 1), Ok(()));
    let mut lowered = config_with(0, None, 2);
    lowered.authority = "admin".to_string();
    assert_eq!(ledger.set_config(lowered, "admin"), Ok(()));
    assert_eq!(ledger.mint_for_like("alice", 2), Err(LedgerError::Overflow));
    assert_eq!(ledger.balance_of("alice"), u64::MAX - 1);
    assert_eq!(ledger.total_supply(), 0);
    let outcome = ledger.record_like_and_reward("r1", "alice", 3).unwrap();
    assert!(outcome.liked && !outcome.minted);
    assert_eq!(
        outcome.message,
        "Review liked but token minting failed: Supply or balance overflow"
    );
}

#[test]
fn stranger_cannot_replace_the_config() {
    let mut ledger = standard_ledger();
    ledger.record_like_and_reward("r1", "alice", 1).unwrap();
    let res = ledger.set_config(config_with(5, None, 1), "mallory");
    assert_eq!(res, Err(LedgerError::Unauthorized));
    let config = ledger.get_config();
    assert_eq!(config.name, "EatReview Token");
    assert_eq!(config.symbol, "ERT");
    assert_eq!(config.decimals, 8);
    assert_eq!(config.total_supply, 100_000_000);
    assert_eq!(config.max_supply, Some(STANDARD_MAX_SUPPLY));
    assert_eq!(config.mint_per_like, 100_000_000);
    assert_eq!(config.authority, "admin");
    assert_eq!(ledger.set_config(config_with(5, None, 1), ""), Err(LedgerError::Unauthorized));
}

#[test]
fn authority_replaces_the_whole_config() {
    let mut ledger = standard_ledger();
    let mut next = config_with(42, Some(1000), 7);
    next.name = "Other".to_string();
    next.symbol = "OTH".to_string();
    next.decimals = 2;
    next.authority = "root".to_string();
    assert_eq!(ledger.set_config(next, "admin"), Ok(()));
    let config = ledger.get_config();
    assert_eq!(config.name, "Other");
    assert_eq!(config.symbol, "OTH");
    assert_eq!(config.decimals, 2);
    assert_eq!(config.total_supply, 42);
    assert_eq!(config.max_supply, Some(1000));
    assert_eq!(config.mint_per_like, 7);
    assert_eq!(config.authority, "root");
    assert_eq!(ledger.total_supply(), 42);
    assert_eq!(ledger.set_config(config_with(0, None, 1), "admin"), Err(LedgerError::Unauthorized));
    assert_eq!(ledger.set_config(config_with(0, None, 1), "root"), Ok(()));
}

#[test]
fn likes_are_keyed_by_the_ordered_pair() {
    let mut ledger = standard_ledger();
    ledger.record_like("a:b", "c", 1).unwrap();
    assert!(!ledger.has_liked("a", "b:c"));
    assert_eq!(ledger.record_like("a", "b:c", 2), Ok(()));
    ledger.record_like("ab", "c", 3).unwrap();
    assert!(!ledger.has_liked("a", "bc"));
    assert!(!ledger.has_liked("c", "ab"));
    assert_eq!(ledger.get_like_count("a:b"), 1);
    assert_eq!(ledger.get_like_count("a"), 1);
    assert_eq!(ledger.get_like_count("ab"), 1);
}

#[test]
fn like_key_carries_the_length_then_both_names() {
    assert_eq!(like_key("ab", "c"), "\u{2}\0\0\0\0\0\0\0abc");
    assert_eq!(like_key("", ""), "\0\0\0\0\0\0\0\0");
    let long = "x".repeat(258);
    let key = like_key(&long, "u");
    assert!(key.starts_with("\u{2}\u{1}\0\0\0\0\0\0x"));
    assert_eq!(key.chars().count(), 8 + 258 + 1);
    assert_eq!(like_key("é", "u"), "\u{1}\0\0\0\0\0\0\0éu");
}

#[test]
fn empty_names_are_names_like_any_other() {
    let mut ledger = standard_ledger();
    assert_eq!(ledger.record_like("", "", 1), Ok(()));
    assert!(ledger.has_liked("", ""));
    assert_eq!(ledger.record_like("", "", 2), Err(LedgerError::AlreadyLiked));
    assert_eq!(ledger.get_like_count(""), 1);
}

#[test]
fn error_messages() {
    assert_eq!(LedgerError::AlreadyLiked.message(), "Already liked this review");
    assert_eq!(LedgerError::SupplyCapReached.message(), "Maximum supply reached");
    assert_eq!(LedgerError::Overflow.message(), "Supply or balance overflow");
    assert_eq!(LedgerError::Unauthorized.message(), "Only admin can update token config");
}

#[test]
fn snapshot_is_independent() {
    let config = TokenConfig::standard("admin".to_string());
    let mut copy = config.snapshot();
    copy.total_supply = 9;
    assert_eq!(config.total_supply, 0);
    assert_eq!(copy.name, config.name);
    assert_eq!(copy.authority, config.authority);
}

#[test]
fn counter_is_built_again_from_the_like_store() {
    let mut ledger = standard_ledger();
    ledger.record_like_and_reward("r1", "alice", 1).unwrap();
    ledger.record_like_and_reward("r1", "bob", 2).unwrap();
    ledger.record_like_and_reward("r2", "alice", 3).unwrap();
    ledger.record_like_and_reward("", "x", 4).unwrap();
    let config = ledger.get_config();
    let stores = ledger.into_stores();
    let again = RewardLedger::from_stores(stores, config);
    assert_eq!(again.get_like_count("r1"), 2);
    assert_eq!(again.get_like_count("r2"), 1);
    assert_eq!(again.get_like_count(""), 1);
    assert_eq!(again.get_like_count("r3"), 0);
    assert!(again.has_liked("r1", "bob"));
    assert!(!again.has_liked("r2", "bob"));
    assert_eq!(again.balance_of("alice"), 200_000_000);
    assert_eq!(again.balance_of("bob"), 100_000_000);
    assert_eq!(again.total_supply(), 400_000_000);
}

#[test]
fn reopened_ledger_over_new_memory_is_empty() {
    let ledger = RewardLedger::reopen(TokenConfig::standard("admin".to_string()));
    assert_eq!(ledger.get_like_count("r1"), 0);
    assert!(!ledger.has_liked("r1", "alice"));
    assert_eq!(ledger.balance_of("alice"), 0);
    assert_eq!(ledger.get_config().authority, "admin");
}

#[test]
fn keys_split_into_their_pairs() {
    assert_eq!(
        reward_ledger::like_key::split_like_key(&like_key("ab", "c")),
        Some(("ab".to_string(), "c".to_string()))
    );
    assert_eq!(
        reward_ledger::like_key::split_like_key(&like_key("", "")),
        Some((String::new(), String::new()))
    );
    let long = "é".repeat(300);
    assert_eq!(
        reward_ledger::like_key::split_like_key(&like_key(&long, "u:v")),
        Some((long.clone(), "u:v".to_string()))
    );
    assert_eq!(reward_ledger::like_key::split_like_key("short"), None);
    assert_eq!(reward_ledger::like_key::split_like_key("\u{5}\0\0\0\0\0\0\0abc"), None);
    assert_eq!(reward_ledger::like_key::split_like_key("\u{100}\0\0\0\0\0\0\0abc"), None);
    assert_eq!(
        reward_ledger::like_key::split_like_key("\u{3}\0\0\0\0\0\0\0abc"),
        Some(("abc".to_string(), String::new()))
    );
}
