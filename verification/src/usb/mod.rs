//! The composite USB gadget.

pub mod config;
pub mod functionfs;
pub mod product;
pub mod registry;
pub mod serial;
pub mod udc;
