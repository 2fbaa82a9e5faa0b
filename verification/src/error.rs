//! The error type of the SDK.

use vstd::prelude::*;
use vstd::string::StringExecFns;

verus! {

/// What can go wrong in the SDK.
#[derive(Debug, Clone, PartialEq, Eq)]
pub enum SatoxError {
    InitializationFailed,
    ConnectionFailed,
    DisconnectionFailed,
    InvalidConfiguration(String),
    NetworkError(String),
    BlockchainError(String),
    SecurityError(String),
    AssetError(String),
    NftError(String),
    IpfsError(String),
    SerializationError(String),
    DeserializationError(String),
    Unknown(String),
}

impl SatoxError {
    /// The text that stands before the detail of an error, or the whole
    /// text of an error without detail.
    pub open spec fn heading(self) -> Seq<char> {
        match self {
            SatoxError::InitializationFailed => "SDK initialization failed"@,
            SatoxError::ConnectionFailed => "Connection to blockchain network failed"@,
            SatoxError::DisconnectionFailed => "Disconnection from blockchain network failed"@,
            SatoxError::InvalidConfiguration(_) => "Invalid configuration: "@,
            SatoxError::NetworkError(_) => "Network error: "@,
            SatoxError::BlockchainError(_) => "Blockchain error: "@,
            SatoxError::SecurityError(_) => "Security error: "@,
            SatoxError::AssetError(_) => "Asset error: "@,
            SatoxError::NftError(_) => "NFT error: "@,
            SatoxError::IpfsError(_) => "IPFS error: "@,
            SatoxError::SerializationError(_) => "Serialization error: "@,
            SatoxError::DeserializationError(_) => "Deserialization error: "@,
            SatoxError::Unknown(_) => "Unknown error: "@,
        }
    }

    /// The detail that the error carries, empty if it carries none.
    pub open spec fn detail(self) -> Seq<char> {
        match self {
            SatoxError::InitializationFailed => Seq::empty(),
            SatoxError::ConnectionFailed => Seq::empty(),
            SatoxError::DisconnectionFailed => Seq::empty(),
            SatoxError::InvalidConfiguration(detail) => detail@,
            SatoxError::NetworkError(detail) => detail@,
            SatoxError::BlockchainError(detail) => detail@,
            SatoxError::SecurityError(detail) => detail@,
            SatoxError::AssetError(detail) => detail@,
            SatoxError::NftError(detail) => detail@,
            SatoxError::IpfsError(detail) => detail@,
            SatoxError::SerializationError(detail) => detail@,
            SatoxError::DeserializationError(detail) => detail@,
            SatoxError::Unknown(detail) => detail@,
        }
    }

    /// The error as text: the heading, then the detail.
    pub fn message(&self) -> (text: String)
        ensures
            text@ == self.heading() + self.detail(),
    {
        match self {
            SatoxError::InitializationFailed => {
                let text = "SDK initialization failed".to_owned();
                assert(text@ =~= self.heading() + self.detail());
                text
            },
            SatoxError::ConnectionFailed => {
                let text = "Connection to blockchain network failed".to_owned();
                assert(text@ =~= self.heading() + self.detail());
                text
            },
            SatoxError::DisconnectionFailed => {
                let text = "Disconnection from blockchain network failed".to_owned();
                assert(text@ =~= self.heading() + self.detail());
                text
            },
            SatoxError::InvalidConfiguration(detail) => String::from_str(
                "Invalid configuration: ",
            ).concat(detail.as_str()),
            SatoxError::NetworkError(detail) => String::from_str("Network error: ").concat(
                detail.as_str(),
            ),
            SatoxError::BlockchainError(detail) => String::from_str("Blockchain error: ").concat(
                detail.as_str(),
            ),
            SatoxError::SecurityError(detail) => String::from_str("Security error: ").concat(
                detail.as_str(),
            ),
            SatoxError::AssetError(detail) => String::from_str("Asset error: ").concat(
                detail.as_str(),
            ),
            SatoxError::NftError(detail) => String::from_str("NFT error: ").concat(detail.as_str()),
            SatoxError::IpfsError(detail) => String::from_str("IPFS error: ").concat(
                detail.as_str(),
            ),
            SatoxError::SerializationError(detail) => String::from_str(
                "Serialization error: ",
            ).concat(detail.as_str()),
            SatoxError::DeserializationError(detail) => String::from_str(
                "Deserialization error: ",
            ).concat(detail.as_str()),
            SatoxError::Unknown(detail) => String::from_str("Unknown error: ").concat(
                detail.as_str(),
            ),
        }
    }
}

} // verus!
