//! Identity of the machine: boot context, serial numbers and system
//! information.

pub mod nvmem;
pub mod runtime;
pub mod serial;

pub use runtime::{
    boot_info, fuse_serial, inactive_side, system_info_json, BaseSystemInfo, BootRootfsInfo,
    SystemInfo,
};
pub use serial::{format_serial_mac, macs, resolve_serial, serial, MacAddresses};
