//! Verified core of the `summit-usbgadget` update daemon.

pub mod buffer;
pub mod checksum;
pub mod dfu;
pub mod document;
pub mod fastboot_proto;
pub mod fastboot_tcp;
pub mod fastboot_usb;
pub mod fault;
pub mod fbk;
pub mod numbers;
pub mod queue;
pub mod socket_update;
pub mod swupdate;
pub mod swupdate_ipc;
pub mod sysinfo;
pub mod text;
pub mod time;
pub mod usb;
pub mod wire;
