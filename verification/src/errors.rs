//! Error taxonomy of the relay engine.
//!
//! Every failure a session can decide on is one of four kinds: a transient
//! infrastructure error (retried with backoff), a protocol violation (the
//! offending connection is aborted), an unreachable destination, or a fatal
//! configuration error (the listener never starts).

use vstd::prelude::*;

verus! {

/// The precise protocol rule a peer broke.
#[derive(Clone, Copy, Debug, PartialEq, Eq, Structural)]
pub enum ProtocolViolation {
    /// The SOCKS version byte of a greeting or request is not 0x05.
    BadSocksVersion,
    /// None of the offered SOCKS5 authentication methods is acceptable.
    NoAcceptableMethod,
    /// The command of a SOCKS5 request is not CONNECT.
    UnsupportedCommand,
    /// The reserved byte of a SOCKS5 request is not zero.
    BadReserved,
    /// The address-type byte of a SOCKS5 request names no known family.
    BadAddressType,
    /// The version byte of a username/password subnegotiation is not 0x01.
    BadAuthVersion,
    /// A domain name or tunnel target is not valid UTF-8.
    InvalidUtf8,
    /// A CONNECT request carries no authority ("host:port") to tunnel to.
    MissingAuthority,
    /// A non-CONNECT request's target URI carries no host.
    MissingHost,
    /// A tunnel target is too long for the 2-byte length prefix.
    OversizeTarget,
}

/// A per-connection failure, tagged by how the engine reacts to it.
#[derive(Clone, Copy, Debug, PartialEq, Eq, Structural)]
pub enum SessionError {
    /// A transient infrastructure error: retried after a fixed backoff.
    Transient,
    /// The peer broke the protocol: abort only this connection.
    Violation(ProtocolViolation),
    /// The destination could not be resolved or connected to.
    DestinationUnreachable,
    /// A configuration error that prevents a listener from starting.
    Fatal,
}

} // verus!
