//! Updates over a plain TCP or TLS socket.

pub mod listener;
pub mod tls;

pub use listener::{SocketSourceConfig, SOCKET_SOURCE_SECTION};
pub use tls::SocketTlsConfig;
