//! Passive-side connection establishment for an SRT-style transport.
//!
//! The crate holds the listener's handshake as pure, verified logic: the
//! cookie that ties the two phases together, the decision taken on each
//! inbound packet, and the session parameters that a completed handshake
//! yields.  Reading and writing datagrams is left to the caller.

pub mod address;
pub mod channel;
pub mod cookie;
pub mod latency;
pub mod packet;
pub mod pending_connection;
pub mod settings;

pub use address::{Address, IpAddress};
pub use latency::Latency;
pub use packet::{SeqNumber, SocketID};
pub use pending_connection::listen::listen;
pub use settings::ConnectionSettings;
