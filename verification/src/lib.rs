//! Connection-relay engine for a multi-protocol forward proxy.
//!
//! The crate verifies the protocol logic of a proxy that terminates SOCKS5
//! and HTTP(S) client connections, opens an outbound connection to the
//! requested destination (directly or through a chained tunnel node), and
//! relays bytes in both directions: the SOCKS5 negotiation state machine,
//! the destination-address model, the tunnel handshake codec, the HTTP
//! request planner, and the relay / accept-loop policies. The unverified
//! binary around it performs the socket I/O and feeds the results back in
//! as plain values.

use vstd::prelude::*;

pub mod addr;
pub mod config;
pub mod errors;
pub mod http;
pub mod listener;
pub mod relay;
pub mod socks5;
pub mod text;
pub mod tunnel;

verus! {

} // verus!
