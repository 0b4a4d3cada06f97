//! A gateway RF conformance tester's core: drives two LoRa gateway devices
//! through a bridging protocol and checks, channel by channel, that radio
//! frames sent by one device arrive at the other across every uplink
//! frequency of a regulatory region plan.
//!
//! The crate holds the tester's decisions — the region plans, the endpoint
//! event handling, the registration gates, the observation conduit, the
//! sweep state machine and its matching rules — together with the gateway
//! configuration checker: comment stripping, channel frequency derivation
//! and the printable summary. Sockets, timers and file I/O live with the
//! embedding program, which feeds plain values in and carries actions out.

pub mod channel;
pub mod decimal;
pub mod global_conf;
pub mod protocol;
pub mod region;
pub mod sweep;

pub use region::Region;
