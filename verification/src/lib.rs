//! An adapter that lets a PostgreSQL wire-protocol client negotiate an
//! encrypted transport through a TLS engine: a factory that turns a hostname
//! into a one-shot negotiation handle, the handle's decision of whether a
//! handshake may begin, and the channel-binding value derived from the peer's
//! leaf certificate once a handshake has completed.

pub mod binding;
pub mod connect;
pub mod stream;

pub use binding::{ChannelBinding, channel_binding_of, binding_matches, sha256_of};
pub use connect::{MakeRustlsConnect, RustlsConnect, RustlsConnectData, TlsError};
pub use connect::is_valid_server_name;
pub use stream::RustlsStream;
