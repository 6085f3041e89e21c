//! The HTTP proxy session's decisions.
//!
//! Each request served on an HTTP/1.1 proxy connection is either a CONNECT
//! (establish a raw tunnel to the request's authority, directly or through
//! a configured chain node) or a plain request (forward one exchange to the
//! origin named by its URI). [`plan_request`] makes that decision from what
//! the caller read out of the request; the caller then performs the I/O the
//! plan names.

use vstd::prelude::*;
use vstd::utf8::encode_utf8;

use crate::errors::ProtocolViolation;
use crate::text::{push_decimal, spec_decimal};
use crate::tunnel::{encode_handshake_for, spec_handshake, MAX_TARGET_LEN};

verus! {

/// The origin port assumed when a request's URI names none.
pub const DEFAULT_HTTP_PORT: u16 = 80;

/// What the proxy read out of one incoming request: whether it is a
/// CONNECT, the authority ("host:port") of its target if it has one, and
/// the host and port of its URI.
pub struct HttpRequestInfo {
    pub is_connect: bool,
    pub authority: Option<String>,
    pub host: Option<String>,
    pub port: Option<u16>,
}

/// How one request is served.
#[derive(Clone, Debug, PartialEq, Eq)]
pub enum HttpPlan {
    /// A CONNECT without an authority: respond with status 400 and a short
    /// body; no tunnel is established.
    RejectMissingAuthority,
    /// Respond with an empty success response, upgrade, then connect to
    /// `target` and relay both ways.
    TunnelDirect { target: String },
    /// Respond with an empty success response, upgrade, then connect to the
    /// configured chain node, send it `handshake`, and relay both ways.
    TunnelChained { handshake: Vec<u8> },
    /// A CONNECT whose target does not fit the chain handshake's 2-byte
    /// length prefix: abort the connection.
    RejectOversizeTarget,
    /// A plain request: open a connection to `target` ("host:port" bytes),
    /// forward this one request, and stream the origin's response back.
    Forward { target: Vec<u8> },
    /// A plain request whose URI names no host: abort the connection.
    RejectMissingHost,
}

/// The port to connect to for a plain request: the URI's, or 80.
pub open spec fn default_port(port: Option<u16>) -> u16 {
    match port {
        Some(p) => p,
        None => DEFAULT_HTTP_PORT,
    }
}

/// The "host:port" text of a plain request's origin, as UTF-8 bytes.
pub open spec fn spec_target(host: Seq<char>, port: u16) -> Seq<u8> {
    encode_utf8(host) + seq![':' as u8] + spec_decimal(port as nat)
}

/// Renders "host:port" as the bytes the outbound connection is addressed
/// with.
pub fn format_target(host: &String, port: u16) -> (r: Vec<u8>)
    ensures
        r@ == spec_target(host@, port),
{
    let mut out = vstd::slice::slice_to_vec(host.as_str().as_bytes());
    out.push(58);
    push_decimal(&mut out, port);
    proof {
        assert(out@ =~= spec_target(host@, port));
    }
    out
}

impl HttpPlan {
    /// The protocol violation a rejecting plan aborts the request for, if
    /// it rejects at all.
    pub fn violation(&self) -> (r: Option<ProtocolViolation>)
        ensures
            r == (match self {
                HttpPlan::RejectMissingAuthority => Some(ProtocolViolation::MissingAuthority),
                HttpPlan::RejectOversizeTarget => Some(ProtocolViolation::OversizeTarget),
                HttpPlan::RejectMissingHost => Some(ProtocolViolation::MissingHost),
                _ => None::<ProtocolViolation>,
            }),
    {
        match self {
            HttpPlan::RejectMissingAuthority => Some(ProtocolViolation::MissingAuthority),
            HttpPlan::RejectOversizeTarget => Some(ProtocolViolation::OversizeTarget),
            HttpPlan::RejectMissingHost => Some(ProtocolViolation::MissingHost),
            _ => None,
        }
    }
}

/// Decides how to serve one request. A CONNECT is tunneled to its
/// authority, through the chain node when one is configured; a CONNECT
/// without an authority gets a 400 response. A plain request is forwarded
/// to its URI's host, with the port defaulting to 80.
pub fn plan_request(req: &HttpRequestInfo, chain: Option<&String>) -> (r: HttpPlan)
    ensures
        match r {
            HttpPlan::RejectMissingAuthority => req.is_connect && req.authority is None,
            HttpPlan::TunnelDirect { target } => req.is_connect && chain is None && (match req
                .authority {
                Some(a) => target@ == a@,
                None => false,
            }),
            HttpPlan::TunnelChained { handshake } => req.is_connect && chain is Some && (match req
                .authority {
                Some(a) => encode_utf8(a@).len() <= MAX_TARGET_LEN && handshake@ == spec_handshake(
                    encode_utf8(a@),
                ),
                None => false,
            }),
            HttpPlan::RejectOversizeTarget => req.is_connect && chain is Some && (match req
                .authority {
                Some(a) => encode_utf8(a@).len() > MAX_TARGET_LEN,
                None => false,
            }),
            HttpPlan::Forward { target } => !req.is_connect && (match req.host {
                Some(h) => target@ == spec_target(h@, default_port(req.port)),
                None => false,
            }),
            HttpPlan::RejectMissingHost => !req.is_connect && req.host is None,
        },
{
    if req.is_connect {
        match &req.authority {
            None => HttpPlan::RejectMissingAuthority,
            Some(authority) => {
                match chain {
                    None => HttpPlan::TunnelDirect { target: authority.clone() },
                    Some(_) => {
                        match encode_handshake_for(authority) {
                            Some(handshake) => HttpPlan::TunnelChained { handshake },
                            None => HttpPlan::RejectOversizeTarget,
                        }
                    },
                }
            },
        }
    } else {
        match &req.host {
            None => HttpPlan::RejectMissingHost,
            Some(host) => {
                let port = match req.port {
                    Some(p) => p,
                    None => DEFAULT_HTTP_PORT,
                };
                HttpPlan::Forward { target: format_target(host, port) }
            },
        }
    }
}

} // verus!
