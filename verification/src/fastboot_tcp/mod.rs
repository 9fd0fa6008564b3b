//! Fastboot over TCP.
//!
//! The same commands as over USB, with every packet behind a length prefix.

pub mod config;
pub mod session;
pub mod transport;

pub use config::{FastbootTcpConfig, FASTBOOT_TCP_SECTION};
