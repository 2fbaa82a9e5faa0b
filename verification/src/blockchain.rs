//! Records that describe the chain and the connection to it.

use crate::lifecycle::check_outcome;
use vstd::prelude::*;
use vstd::string::StringExecFns;

verus! {

/// How the chain's RPC endpoint is reached.
#[derive(Debug, Clone, PartialEq, Eq)]
pub struct BlockchainConfig {
    pub rpc_url: String,
    pub rpc_port: u16,
    pub rpc_username: Option<String>,
    pub rpc_password: Option<String>,
    pub timeout_seconds: u32,
    pub enable_ssl: bool,
}

impl Default for BlockchainConfig {
    /// A local node on port 7777, without credentials or TLS, with a
    /// timeout of 30 seconds.
    fn default() -> (config: BlockchainConfig)
        ensures
            config.rpc_url@ == "127.0.0.1"@,
            config.rpc_port == 7777,
            config.rpc_username is None,
            config.rpc_password is None,
            config.timeout_seconds == 30,
            !config.enable_ssl,
    {
        BlockchainConfig {
            rpc_url: "127.0.0.1".to_owned(),
            rpc_port: 7777,
            rpc_username: None,
            rpc_password: None,
            timeout_seconds: 30,
            enable_ssl: false,
        }
    }
}

/// What is known of a block.
#[derive(Debug, Clone, PartialEq, Eq)]
pub struct BlockInfo {
    pub hash: String,
    pub height: u64,
    pub timestamp: u64,
    pub size: u64,
    pub weight: u64,
    pub version: u32,
    pub merkleroot: String,
    pub tx_count: u32,
    pub previous_hash: Option<String>,
    pub next_hash: Option<String>,
}

/// Seconds for which the details of a block are served from the cache.
pub const BLOCK_INFO_TTL_SECS: u64 = 300;

/// Seconds for which the details of a transaction are served from the cache.
pub const TRANSACTION_INFO_TTL_SECS: u64 = 120;

/// Seconds for which the hash of the best block is served from the cache.
pub const BEST_BLOCK_HASH_TTL_SECS: u64 = 30;

/// Seconds for which the hash of the block at a height is served from the
/// cache.
pub const BLOCK_HASH_TTL_SECS: u64 = 300;

/// Seconds for which the chain's statistics are served from the cache.
pub const STATISTICS_TTL_SECS: u64 = 60;

/// The character of one decimal digit.
pub open spec fn digit(value: int) -> char {
    if value == 0 {
        '0'
    } else if value == 1 {
        '1'
    } else if value == 2 {
        '2'
    } else if value == 3 {
        '3'
    } else if value == 4 {
        '4'
    } else if value == 5 {
        '5'
    } else if value == 6 {
        '6'
    } else if value == 7 {
        '7'
    } else if value == 8 {
        '8'
    } else {
        '9'
    }
}

/// A number in decimal, without sign or leading zeros.
pub open spec fn decimal(value: nat) -> Seq<char>
    decreases value,
{
    if value < 10 {
        seq![digit(value as int)]
    } else {
        decimal(value / 10).push(digit((value % 10) as int))
    }
}

/// The text of one decimal digit.
fn digit_text(value: u64) -> (text: &'static str)
    requires
        value < 10,
    ensures
        text@ == seq![digit(value as int)],
{
    proof {
        reveal_strlit("0");
        reveal_strlit("1");
        reveal_strlit("2");
        reveal_strlit("3");
        reveal_strlit("4");
        reveal_strlit("5");
        reveal_strlit("6");
        reveal_strlit("7");
        reveal_strlit("8");
        reveal_strlit("9");
    }
    let text = if value == 0 {
        "0"
    } else if value == 1 {
        "1"
    } else if value == 2 {
        "2"
    } else if value == 3 {
        "3"
    } else if value == 4 {
        "4"
    } else if value == 5 {
        "5"
    } else if value == 6 {
        "6"
    } else if value == 7 {
        "7"
    } else if value == 8 {
        "8"
    } else {
        "9"
    };
    assert(text@ =~= seq![digit(value as int)]);
    text
}

/// Writes a number in decimal.
pub fn decimal_text(value: u64) -> (text: String)
    ensures
        text@ == decimal(value as nat),
    decreases value,
{
    if value < 10 {
        digit_text(value).to_owned()
    } else {
        let text = decimal_text(value / 10).concat(digit_text(value % 10));
        assert(text@ =~= decimal(value as nat));
        text
    }
}

/// The cache key of the details of the block with hash `hash`.
pub open spec fn block_key(hash: Seq<char>) -> Seq<char> {
    "block_"@ + hash
}

/// The cache key of the details of transaction `txid`.
pub open spec fn transaction_key(txid: Seq<char>) -> Seq<char> {
    "tx_"@ + txid
}

/// The cache key of the hash of the block at `height`.
pub open spec fn block_hash_key(height: u64) -> Seq<char> {
    "block_hash_"@ + decimal(height as nat)
}

/// The cache key of the details of the block with hash `hash`.
pub fn block_cache_key(hash: &str) -> (key: String)
    ensures
        key@ == block_key(hash@),
{
    String::from_str("block_").concat(hash)
}

/// The cache key of the details of transaction `txid`.
pub fn transaction_cache_key(txid: &str) -> (key: String)
    ensures
        key@ == transaction_key(txid@),
{
    String::from_str("tx_").concat(txid)
}

/// The cache key of the hash of the block at `height`.
pub fn block_hash_cache_key(height: u64) -> (key: String)
    ensures
        key@ == block_hash_key(height),
{
    let digits = decimal_text(height);
    String::from_str("block_hash_").concat(digits.as_str())
}

/// The cache key of the hash of the best block.
pub fn best_block_hash_cache_key() -> (key: String)
    ensures
        key@ == "best_block_hash"@,
{
    "best_block_hash".to_owned()
}

/// The cache key of the chain's statistics.
pub fn statistics_cache_key() -> (key: String)
    ensures
        key@ == "blockchain_statistics"@,
{
    "blockchain_statistics".to_owned()
}

/// Refuses an empty block hash.
pub fn check_block_hash(hash: &str) -> (result: Result<(), String>)
    ensures
        check_outcome(
            result,
            if hash@.len() == 0 {
                Some("Invalid block hash"@)
            } else {
                None
            },
        ),
{
    if hash.is_empty() {
        Err("Invalid block hash".to_owned())
    } else {
        Ok(())
    }
}

/// Refuses an empty transaction id.
pub fn check_transaction_id(txid: &str) -> (result: Result<(), String>)
    ensures
        check_outcome(
            result,
            if txid@.len() == 0 {
                Some("Invalid transaction ID"@)
            } else {
                None
            },
        ),
{
    if txid.is_empty() {
        Err("Invalid transaction ID".to_owned())
    } else {
        Ok(())
    }
}

} // verus!
