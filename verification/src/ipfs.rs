//! Records that describe files on IPFS and the gateway to them.

use vstd::prelude::*;

verus! {

/// How IPFS is reached.
#[derive(Debug, Clone, PartialEq, Eq)]
pub struct IpfsConfig {
    pub gateway_url: String,
    pub api_url: Option<String>,
    pub timeout_seconds: u32,
    pub max_file_size: u64,
}

/// The largest file that the default configuration accepts: 100 MiB.
pub const DEFAULT_MAX_FILE_SIZE: u64 = 104_857_600;

impl Default for IpfsConfig {
    /// The public gateway, no API endpoint, a timeout of 30 seconds and
    /// files of up to 100 MiB.
    fn default() -> (config: IpfsConfig)
        ensures
            config.gateway_url@ == "https://ipfs.io"@,
            config.api_url is None,
            config.timeout_seconds == 30,
            config.max_file_size == 100 * 1024 * 1024,
    {
        IpfsConfig {
            gateway_url: "https://ipfs.io".to_owned(),
            api_url: None,
            timeout_seconds: 30,
            max_file_size: DEFAULT_MAX_FILE_SIZE,
        }
    }
}

/// What is known of a file on IPFS.
#[derive(Debug, Clone, PartialEq, Eq)]
pub struct IpfsFileInfo {
    pub hash: String,
    pub size: u64,
    pub name: Option<String>,
    pub content_type: Option<String>,
    pub upload_time: u64,
}

} // verus!
