//! A manager substrate for long-lived service objects: a guarded lifecycle
//! state machine, per-operation statistics, an expiring cache, an event bus,
//! a tagged resource registry and a lazily built singleton slot.
//!
//! Every component is a plain value that is driven through `&mut self`;
//! callers that share one across threads put it behind a lock of their own.

pub mod lifecycle;
pub mod tracker;
pub mod json;
pub mod clock;
pub mod cache;
pub mod sharing;
pub mod events;
pub mod resource;
pub mod singleton;
pub mod thread_safe_manager;
pub mod error;
pub mod asset;
pub mod blockchain;
pub mod network;
pub mod nft;
pub mod ipfs;
