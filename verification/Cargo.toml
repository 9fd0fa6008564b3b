[package]
name = "summit_usbgadget"
version = "0.1.0"
edition = "2021"
publish = false

[dependencies]
bytes = "=1.12.1"
crc32fast = "=1.5.4"
futures-util = "=0.3.34"
inventory = "=0.3.25"
libc = "=0.2.191"
log = "=0.4.35"
openssl = "=0.10.82"
openssl-sys = "=0.9.118"
rustix = { version = "=1.1.6", features = ["fs", "rand", "system"] }
serde = { version = "=1.0.229", features = ["derive"] }
serde_json = "=1.0.154"
thiserror = "=2.0.21"
tokio = { version = "=1.54.1", features = ["full"] }
tokio-openssl = "=0.6.5"
tokio-udev = "=0.10.0"
toml = "=1.1.8"
usb-gadget = { version = "=1.3.0", features = ["tokio"] }
