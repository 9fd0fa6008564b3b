//! USB Device Firmware Upgrade (DFU 1.1).

pub mod config;
pub mod gadget;
pub mod handler;
pub mod protocol;

pub use config::{DfuConfig, DfuConfigError, DfuFnConfig, UploadSource};
pub use handler::{is_dfu_request, CtrlReq, Dfu};
pub use protocol::{GetStatus, State, Status};
