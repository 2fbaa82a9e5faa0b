//! Records that describe the peer-to-peer network.

use vstd::prelude::*;

verus! {

/// How the node listens and connects.
#[derive(Debug, Clone, PartialEq, Eq)]
pub struct NetworkConfig {
    pub p2p_port: u16,
    pub rpc_port: u16,
    pub max_connections: u32,
    pub timeout_seconds: u32,
    pub enable_ssl: bool,
    pub ssl_cert_path: Option<String>,
    pub ssl_key_path: Option<String>,
}

impl Default for NetworkConfig {
    /// Peer-to-peer on port 60777, RPC on port 7777, up to 100
    /// connections, a timeout of 30 seconds, no TLS.
    fn default() -> (config: NetworkConfig)
        ensures
            config.p2p_port == 60777,
            config.rpc_port == 7777,
            config.max_connections == 100,
            config.timeout_seconds == 30,
            !config.enable_ssl,
            config.ssl_cert_path is None,
            config.ssl_key_path is None,
    {
        NetworkConfig {
            p2p_port: 60777,
            rpc_port: 7777,
            max_connections: 100,
            timeout_seconds: 30,
            enable_ssl: false,
            ssl_cert_path: None,
            ssl_key_path: None,
        }
    }
}

/// What is known of a connected peer.
#[derive(Debug, Clone, PartialEq, Eq)]
pub struct PeerInfo {
    pub address: String,
    pub port: u16,
    pub version: String,
    pub subversion: String,
    pub connection_time: u64,
    pub last_seen: u64,
    pub bytes_sent: u64,
    pub bytes_received: u64,
}

/// Traffic and connection counters of the node.
#[derive(Debug, Clone, Copy, PartialEq, Eq, Structural)]
pub struct NetworkStats {
    pub total_connections: u32,
    pub active_connections: u32,
    pub bytes_sent: u64,
    pub bytes_received: u64,
    pub uptime_seconds: u64,
}

} // verus!
