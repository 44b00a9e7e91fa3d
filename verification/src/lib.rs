//! FreshBlu: a Meshblu-compatible IoT messaging platform, its verified core.
//!
//! Devices, their whitelists and who may do what to whom; messages, events
//! and how they are routed between devices, pods and subscribers; the
//! session protocol of WebSocket clients; tokens and credentials; and the
//! client's request paths. Storage, sockets and the network stay outside.
pub mod text;
pub mod uuid_text;
pub mod error;
pub mod permissions;
pub mod subscription;
pub mod forwarder;
pub mod subjects;
pub mod codec;
pub mod auth;
pub mod token;
pub mod url_guard;
pub mod rate_limit;
pub mod config;
pub mod props;
pub mod device;
pub mod message;
pub mod access;
pub mod delivery;
pub mod socket;
pub mod routing;
pub mod client;
