//! SSH sessions: their configuration, and the decisions taken while talking
//! to a remote host.
pub mod client;
pub mod error;
pub mod session;

pub use client::{CommandOutput, SessionConfig};
pub use error::Error;
pub use session::{ChannelEvent, CommandCollector, KnownHostCheck, Relay, RelayAction, RelayEvent};
