//! Records that describe non-fungible tokens.

use vstd::prelude::*;

verus! {

/// One trait of a token, as a name and a value.
#[derive(Debug, Clone, PartialEq, Eq)]
pub struct NftAttribute {
    pub trait_type: String,
    pub value: String,
}

/// What a token says of itself.
#[derive(Debug, Clone, PartialEq, Eq)]
pub struct NftMetadata {
    pub name: String,
    pub description: Option<String>,
    pub image_url: Option<String>,
    pub attributes: Vec<NftAttribute>,
    pub external_url: Option<String>,
}

/// What is known of a token.
#[derive(Debug, Clone, PartialEq, Eq)]
pub struct NftInfo {
    pub nft_id: String,
    pub asset_id: String,
    pub owner: String,
    pub metadata: NftMetadata,
    pub creation_txid: String,
    pub creation_block: u64,
    pub ipfs_hash: Option<String>,
}

} // verus!
