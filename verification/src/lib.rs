//! Launcher and bootstrap layer for a TLS-capable encrypting proxy.
//!
//! The library validates command-line configuration, assembles TLS and
//! signing credentials, and plans the multi-threaded launch of the proxy
//! server. File and network I/O, as well as the proxy server itself, live
//! outside this crate; the functions here work on plain values and state
//! exactly which configurations are accepted and which are rejected.

pub mod config;
pub mod credentials;
pub mod hexkey;
pub mod launcher;
pub mod logging;
