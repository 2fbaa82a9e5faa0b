//! Records that describe assets.

use vstd::prelude::*;

verus! {

/// What a new asset is created with.
#[derive(Debug, Clone, PartialEq, Eq)]
pub struct AssetConfig {
    pub name: String,
    pub symbol: String,
    pub description: Option<String>,
    pub precision: u8,
    pub reissuable: bool,
    pub ipfs_hash: Option<String>,
}

/// What is known of an asset.
#[derive(Debug, Clone, PartialEq, Eq)]
pub struct AssetInfo {
    pub asset_id: String,
    pub name: String,
    pub symbol: String,
    pub description: Option<String>,
    pub precision: u8,
    pub reissuable: bool,
    pub total_supply: u64,
    pub circulating_supply: u64,
    pub ipfs_hash: Option<String>,
    pub owner: String,
    pub creation_txid: String,
    pub creation_block: u64,
}

/// One transfer of an asset.
#[derive(Debug, Clone, PartialEq, Eq)]
pub struct AssetTransfer {
    pub asset_id: String,
    pub from_address: String,
    pub to_address: String,
    pub amount: u64,
    pub txid: String,
    pub block_height: u64,
    pub confirmations: u32,
}

} // verus!
