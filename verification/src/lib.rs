//! A SOCKS5 proxy protocol core: the binary wire codec for addresses,
//! requests and replies, the reply-code taxonomy, and the client and
//! server negotiation state machines, all with verified contracts.
//!
//! The library works on plain byte values; the surrounding transport
//! (sockets, name resolution, the relay pumps) hands bytes in and takes
//! bytes out.

pub mod client;
pub mod codec;
pub mod server;
pub mod utils;

pub use utils::Addr;
pub use utils::AuthMethod;
