//! Client side of the SWUpdate IPC and progress protocols.
//!
//! Frames are built and read here, and every decision on what was received is
//! taken here; the sockets themselves belong to the caller.

pub mod client;
pub mod codec;
pub mod error;
pub mod proto;
pub mod socket;

pub use client::AsyncOutcome;
pub use codec::{InstallMode, InstallRequest, InstallSource, InstallStatus};
pub use error::Error;
pub use socket::{ctrl_socket_path, progress_socket_path};
