use satox_sdk::blockchain::{
    best_block_hash_cache_key, block_cache_key, block_hash_cache_key, check_block_hash,
    check_transaction_id, decimal_text, statistics_cache_key, transaction_cache_key,
    BEST_BLOCK_HASH_TTL_SECS, BLOCK_HASH_TTL_SECS, BLOCK_INFO_TTL_SECS, STATISTICS_TTL_SECS,
    TRANSACTION_INFO_TTL_SECS,
};

#[test]
fn decimal_text_writes_numbers_without_leading_zeros() {
    assert_eq!(decimal_text(0), "0");
    assert_eq!(decimal_text(7), "7");
    assert_eq!(decimal_text(10), "10");
    assert_eq!(decimal_text(12_345), "12345");
    assert_eq!(decimal_text(9_007_199_254_740_993), "9007199254740993");
    assert_eq!(decimal_text(u64::MAX), "18446744073709551615");
}

#[test]
fn decimal_text_agrees_with_the_standard_rendering() {
    let mut value: u64 = 1;
    for _ in 0..19 {
        assert_eq!(decimal_text(value), value.to_string());
        assert_eq!(decimal_text(value - 1), (value - 1).to_string());
        value *= 10;
    }
}

#[test]
fn cache_keys_are_prefix_and_subject() {
    assert_eq!(block_cache_key("00ab"), "block_00ab");
    assert_eq!(block_cache_key(""), "block_");
    assert_eq!(transaction_cache_key("f00d"), "tx_f00d");
    assert_eq!(block_hash_cache_key(0), "block_hash_0");
    assert_eq!(block_hash_cache_key(840_000), "block_hash_840000");
    assert_eq!(best_block_hash_cache_key(), "best_block_hash");
    assert_eq!(statistics_cache_key(), "blockchain_statistics");
}

#[test]
fn times_to_live_are_as_documented() {
    assert_eq!(BLOCK_INFO_TTL_SECS, 300);
    assert_eq!(TRANSACTION_INFO_TTL_SECS, 120);
    assert_eq!(BEST_BLOCK_HASH_TTL_SECS, 30);
    assert_eq!(BLOCK_HASH_TTL_SECS, 300);
    assert_eq!(STATISTICS_TTL_SECS, 60);
}

#[test]
fn empty_subjects_are_refused() {
    assert_eq!(check_block_hash(""), Err("Invalid block hash".to_string()));
    assert_eq!(check_block_hash("00"), Ok(()));
    assert_eq!(
        check_transaction_id(""),
        Err("Invalid transaction ID".to_string())
    );
    assert_eq!(check_transaction_id("ab"), Ok(()));
}
