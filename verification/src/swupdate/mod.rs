//! SWUpdate as the sink of streamed firmware: its settings, the transfer
//! session, and the transports behind it.

pub mod config;
pub mod ipc;
pub mod pipe;
pub mod pump;
pub mod restart;
pub mod session;
pub mod sysinfo;

pub use config::{
    EffectiveUpdateType, SwupdateConfig, SwupdateConfigError, SwupdateParams, UpdateHost,
};
pub use pump::{PumpStep, PumpToSwupdateEnd};
pub use session::{Feed, SwupdateSession};
