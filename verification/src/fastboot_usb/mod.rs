//! The fastboot-usb function: its state machine, its command interpreter and
//! its place in the gadget.

pub mod commands;
pub mod gadget;
pub mod receive;
pub mod state;

pub use gadget::{build, build_fastboot_usb, FastbootUsbFnConfig, FastbootUsbRuntime};
