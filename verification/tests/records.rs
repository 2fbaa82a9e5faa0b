use satox_sdk::blockchain::BlockchainConfig;
use satox_sdk::clock::{clamp_nanos, duration_nanos};
use satox_sdk::error::SatoxError;
use satox_sdk::ipfs::{IpfsConfig, DEFAULT_MAX_FILE_SIZE};
use satox_sdk::network::NetworkConfig;
use std::time::Duration;

#[test]
fn blockchain_config_defaults() {
    let config = BlockchainConfig::default();
    assert_eq!(config.rpc_url, "127.0.0.1");
    assert_eq!(config.rpc_port, 7777);
    assert_eq!(config.rpc_username, None);
    assert_eq!(config.rpc_password, None);
    assert_eq!(config.timeout_seconds, 30);
    assert!(!config.enable_ssl);
}

#[test]
fn network_config_defaults() {
    let config = NetworkConfig::default();
    assert_eq!(config.p2p_port, 60777);
    assert_eq!(config.rpc_port, 7777);
    assert_eq!(config.max_connections, 100);
    assert_eq!(config.timeout_seconds, 30);
    assert!(!config.enable_ssl);
    assert_eq!(config.ssl_cert_path, None);
    assert_eq!(config.ssl_key_path, None);
}

#[test]
fn ipfs_config_defaults() {
    let config = IpfsConfig::default();
    assert_eq!(config.gateway_url, "https://ipfs.io");
    assert_eq!(config.api_url, None);
    assert_eq!(config.timeout_seconds, 30);
    assert_eq!(config.max_file_size, 100 * 1024 * 1024);
    assert_eq!(DEFAULT_MAX_FILE_SIZE, 104_857_600);
}

#[test]
fn errors_without_detail_read_as_their_heading() {
    assert_eq!(
        SatoxError::InitializationFailed.message(),
        "SDK initialization failed"
    );
    assert_eq!(
        SatoxError::ConnectionFailed.message(),
        "Connection to blockchain network failed"
    );
    assert_eq!(
        SatoxError::DisconnectionFailed.message(),
        "Disconnection from blockchain network failed"
    );
}

#[test]
fn errors_with_detail_read_as_heading_and_detail() {
    let detail = || "d".to_string();
    assert_eq!(
        SatoxError::InvalidConfiguration(detail()).message(),
        "Invalid configuration: d"
    );
    assert_eq!(SatoxError::NetworkError(detail()).message(), "Network error: d");
    assert_eq!(
        SatoxError::BlockchainError(detail()).message(),
        "Blockchain error: d"
    );
    assert_eq!(
        SatoxError::SecurityError(detail()).message(),
        "Security error: d"
    );
    assert_eq!(SatoxError::AssetError(detail()).message(), "Asset error: d");
    assert_eq!(SatoxError::NftError(detail()).message(), "NFT error: d");
    assert_eq!(SatoxError::IpfsError(detail()).message(), "IPFS error: d");
    assert_eq!(
        SatoxError::SerializationError(detail()).message(),
        "Serialization error: d"
    );
    assert_eq!(
        SatoxError::DeserializationError(detail()).message(),
        "Deserialization error: d"
    );
    assert_eq!(SatoxError::Unknown(detail()).message(), "Unknown error: d");
}

#[test]
fn nanosecond_counts_stop_at_the_end_of_the_clock() {
    assert_eq!(clamp_nanos(0), 0);
    assert_eq!(clamp_nanos(1_234), 1_234);
    assert_eq!(clamp_nanos(u64::MAX as u128), u64::MAX);
    assert_eq!(clamp_nanos(u64::MAX as u128 + 1), u64::MAX);
    assert_eq!(clamp_nanos(u128::MAX), u64::MAX);
}

#[test]
fn durations_read_as_nanoseconds() {
    assert_eq!(duration_nanos(&Duration::from_secs(10)), 10_000_000_000);
    assert_eq!(duration_nanos(&Duration::from_millis(10)), 10_000_000);
    assert_eq!(duration_nanos(&Duration::MAX), u64::MAX);
}
