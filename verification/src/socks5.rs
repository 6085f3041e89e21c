//! The SOCKS5 session state machine (RFC 1928, RFC 1929).
//!
//! A session moves through `AwaitingGreeting -> AwaitingRequest ->
//! Connecting -> Relaying -> Closed`, with `AuthFailed` as a terminal error
//! state when no offered authentication method is acceptable. Each step is a
//! pure decision: the caller reads the wire bytes, hands them in as plain
//! values, and performs the I/O the returned action asks for. All multi-byte
//! fields are big-endian (network byte order), the reply port included.

use vstd::prelude::*;
use vstd::utf8::{decode_utf8, valid_utf8};

use vstd::string::StringExecFns;

use crate::addr::{DestAddr, HostAddr};
use crate::errors::{ProtocolViolation, SessionError};
use crate::text::{bytes_to_string, decimal_string, push_bytes, spec_decimal_chars};

verus! {

/// The SOCKS protocol version implemented here.
pub const SOCKS_VERSION: u8 = 0x05;

/// Method id: no authentication required.
pub const METHOD_NO_AUTH: u8 = 0x00;

/// Method id: username/password authentication (RFC 1929).
pub const METHOD_USERNAME_PASSWORD: u8 = 0x02;

/// Method sentinel: none of the offered methods is acceptable.
pub const METHOD_NO_ACCEPTABLE: u8 = 0xff;

/// Command: establish a TCP connection to the destination.
pub const CMD_CONNECT: u8 = 0x01;

/// Address type: IPv4 (4 octets).
pub const ATYP_V4: u8 = 0x01;

/// Address type: domain name (1 length byte, then that many bytes).
pub const ATYP_DOMAIN: u8 = 0x03;

/// Address type: IPv6 (16 octets).
pub const ATYP_V6: u8 = 0x04;

/// Reply code: request succeeded.
pub const REP_SUCCEEDED: u8 = 0x00;

/// Version byte of the username/password subnegotiation (RFC 1929).
pub const AUTH_VERSION: u8 = 0x01;

/// The states of a SOCKS5 session.
#[derive(Clone, Copy, Debug, PartialEq, Eq, Structural)]
pub enum SessionState {
    /// Waiting for the client's greeting (version and method list).
    AwaitingGreeting,
    /// Method negotiation succeeded; waiting for the CONNECT request.
    AwaitingRequest,
    /// The request was parsed; the outbound connection is being opened.
    Connecting,
    /// Both streams are handed to the relay.
    Relaying,
    /// The session is over (normally or after an abort).
    Closed,
    /// Terminal error state: no acceptable authentication method.
    AuthFailed,
}

/// What the caller must do with the client after the greeting step.
#[derive(Clone, Debug, PartialEq, Eq)]
pub enum GreetingAction {
    /// Send `reply` and go on to read the request.
    Accept { reply: Vec<u8> },
    /// Send `reply`, then close: no offered method was acceptable.
    Refuse { reply: Vec<u8>, err: SessionError },
    /// Close at once without any reply.
    Abort { err: SessionError },
}

/// The address family a request named, telling the caller how many more
/// bytes to read: 4 octets, 16 octets, or a length-prefixed domain name.
#[derive(Clone, Copy, Debug, PartialEq, Eq, Structural)]
pub enum AddrKind {
    V4,
    V6,
    Domain,
}

impl AddrKind {
    /// The octet count this address family fixes, or `None` for a domain
    /// name, whose length arrives on the wire as its own byte.
    pub fn fixed_len(&self) -> (r: Option<u8>)
        ensures
            r == (match self {
                AddrKind::V4 => Some(4u8),
                AddrKind::V6 => Some(16u8),
                AddrKind::Domain => None::<u8>,
            }),
    {
        match self {
            AddrKind::V4 => Some(4),
            AddrKind::V6 => Some(16),
            AddrKind::Domain => None,
        }
    }
}

/// Whether the method list offers "no authentication required".
pub open spec fn offers_no_auth(methods: Seq<u8>) -> bool {
    methods.contains(METHOD_NO_AUTH)
}

/// The two bytes of a port in network (big-endian) byte order.
pub open spec fn spec_port_be(port: u16) -> Seq<u8> {
    seq![(port / 256) as u8, (port % 256) as u8]
}

/// The reply record sent after a successful outbound connect: version,
/// success code, reserved zero, then the address type, address octets and
/// big-endian port of the *local* endpoint the outbound socket was bound to.
pub open spec fn spec_reply(local: HostAddr) -> Seq<u8> {
    match local {
        HostAddr::V4 { ip, port } => seq![
            SOCKS_VERSION,
            REP_SUCCEEDED,
            0u8,
            ATYP_V4,
        ] + ip@ + spec_port_be(port),
        HostAddr::V6 { ip, port } => seq![
            SOCKS_VERSION,
            REP_SUCCEEDED,
            0u8,
            ATYP_V6,
        ] + ip@ + spec_port_be(port),
    }
}

/// One SOCKS5 session: a state machine advanced by the wire bytes the
/// caller reads. It owns no sockets; the caller performs the I/O each
/// returned action or parsed destination asks for.
pub struct Session {
    pub state: SessionState,
}

impl Session {
    /// A fresh session, waiting for the client's greeting.
    pub fn new() -> (s: Session)
        ensures
            s.state is AwaitingGreeting,
    {
        Session { state: SessionState::AwaitingGreeting }
    }

    /// Handles the greeting: `version` and the offered method ids. When the
    /// version is right and "no authentication" is offered, the session
    /// replies `[0x05, 0x00]` and advances to request parsing; when it is
    /// not offered, the session replies `[0x05, 0xFF]` and fails; a wrong
    /// version aborts the connection without a reply.
    pub fn on_greeting(&mut self, version: u8, methods: &Vec<u8>) -> (r: GreetingAction)
        requires
            old(self).state is AwaitingGreeting,
        ensures
            version != SOCKS_VERSION ==> r == (GreetingAction::Abort {
                err: SessionError::Violation(ProtocolViolation::BadSocksVersion),
            }) && final(self).state is Closed,
            version == SOCKS_VERSION && offers_no_auth(methods@) ==> (match r {
                GreetingAction::Accept { reply } => reply@ == seq![SOCKS_VERSION, METHOD_NO_AUTH],
                _ => false,
            }) && final(self).state is AwaitingRequest,
            version == SOCKS_VERSION && !offers_no_auth(methods@) ==> (match r {
                GreetingAction::Refuse { reply, err } => reply@ == seq![
                    SOCKS_VERSION,
                    METHOD_NO_ACCEPTABLE,
                ] && err == SessionError::Violation(ProtocolViolation::NoAcceptableMethod),
                _ => false,
            }) && final(self).state is AuthFailed,
    {
        if version != SOCKS_VERSION {
            self.state = SessionState::Closed;
            return GreetingAction::Abort {
                err: SessionError::Violation(ProtocolViolation::BadSocksVersion),
            };
        }
        if contains_no_auth(methods) {
            self.state = SessionState::AwaitingRequest;
            let mut reply: Vec<u8> = Vec::new();
            reply.push(SOCKS_VERSION);
            reply.push(METHOD_NO_AUTH);
            proof {
                assert(reply@ =~= seq![SOCKS_VERSION, METHOD_NO_AUTH]);
            }
            GreetingAction::Accept { reply }
        } else {
            self.state = SessionState::AuthFailed;
            let mut reply: Vec<u8> = Vec::new();
            reply.push(SOCKS_VERSION);
            reply.push(METHOD_NO_ACCEPTABLE);
            proof {
                assert(reply@ =~= seq![SOCKS_VERSION, METHOD_NO_ACCEPTABLE]);
            }
            GreetingAction::Refuse {
                reply,
                err: SessionError::Violation(ProtocolViolation::NoAcceptableMethod),
            }
        }
    }

    /// Handles the fixed prefix of a request: version, command, reserved
    /// byte and address type. Only CONNECT is supported; any violation
    /// aborts the connection without a reply. On success the caller learns
    /// which address family to read next.
    pub fn on_request_header(&mut self, version: u8, command: u8, reserved: u8, atyp: u8) -> (r:
        Result<AddrKind, SessionError>)
        requires
            old(self).state is AwaitingRequest,
        ensures
            r == (if version != SOCKS_VERSION {
                Err::<AddrKind, SessionError>(SessionError::Violation(
                    ProtocolViolation::BadSocksVersion,
                ))
            } else if command != CMD_CONNECT {
                Err(SessionError::Violation(ProtocolViolation::UnsupportedCommand))
            } else if reserved != 0 {
                Err(SessionError::Violation(ProtocolViolation::BadReserved))
            } else if atyp == ATYP_V4 {
                Ok(AddrKind::V4)
            } else if atyp == ATYP_DOMAIN {
                Ok(AddrKind::Domain)
            } else if atyp == ATYP_V6 {
                Ok(AddrKind::V6)
            } else {
                Err(SessionError::Violation(ProtocolViolation::BadAddressType))
            }),
            final(self).state is AwaitingRequest <==> r is Ok,
            r is Err ==> final(self).state is Closed,
    {
        if version != SOCKS_VERSION {
            self.state = SessionState::Closed;
            Err(SessionError::Violation(ProtocolViolation::BadSocksVersion))
        } else if command != CMD_CONNECT {
            self.state = SessionState::Closed;
            Err(SessionError::Violation(ProtocolViolation::UnsupportedCommand))
        } else if reserved != 0 {
            self.state = SessionState::Closed;
            Err(SessionError::Violation(ProtocolViolation::BadReserved))
        } else if atyp == ATYP_V4 {
            Ok(AddrKind::V4)
        } else if atyp == ATYP_DOMAIN {
            Ok(AddrKind::Domain)
        } else if atyp == ATYP_V6 {
            Ok(AddrKind::V6)
        } else {
            self.state = SessionState::Closed;
            Err(SessionError::Violation(ProtocolViolation::BadAddressType))
        }
    }

    /// Builds the destination from the address bytes and big-endian port
    /// that followed the request header. A domain name must be valid UTF-8;
    /// otherwise the connection is aborted. On success the session starts
    /// connecting.
    pub fn on_request_addr(&mut self, kind: AddrKind, addr: Vec<u8>, port: u16) -> (r: Result<
        DestAddr,
        SessionError,
    >)
        requires
            old(self).state is AwaitingRequest,
            kind is V4 ==> addr@.len() == 4,
            kind is V6 ==> addr@.len() == 16,
        ensures
            kind is V4 ==> (match r {
                Ok(d) => d matches DestAddr::Ip(a) && a == (HostAddr::V4 { ip: addr, port }),
                Err(_) => false,
            }),
            kind is V6 ==> (match r {
                Ok(d) => d matches DestAddr::Ip(a) && a == (HostAddr::V6 { ip: addr, port }),
                Err(_) => false,
            }),
            kind is Domain && valid_utf8(addr@) ==> (match r {
                Ok(d) => match d {
                    DestAddr::Domain { name, port: p } => name@ == decode_utf8(addr@) && p == port,
                    _ => false,
                },
                Err(_) => false,
            }),
            kind is Domain && !valid_utf8(addr@) ==> r == Err::<DestAddr, SessionError>(
                SessionError::Violation(ProtocolViolation::InvalidUtf8),
            ),
            r is Ok ==> final(self).state is Connecting && r.unwrap().wf(),
            r is Err ==> final(self).state is Closed,
    {
        match kind {
            AddrKind::V4 => {
                self.state = SessionState::Connecting;
                Ok(DestAddr::Ip(HostAddr::V4 { ip: addr, port }))
            },
            AddrKind::V6 => {
                self.state = SessionState::Connecting;
                Ok(DestAddr::Ip(HostAddr::V6 { ip: addr, port }))
            },
            AddrKind::Domain => {
                match bytes_to_string(&addr) {
                    Some(name) => {
                        self.state = SessionState::Connecting;
                        Ok(DestAddr::Domain { name, port })
                    },
                    None => {
                        self.state = SessionState::Closed;
                        Err(SessionError::Violation(ProtocolViolation::InvalidUtf8))
                    },
                }
            },
        }
    }

    /// Records that resolving or connecting to the destination failed. The
    /// session aborts without sending any reply: the action carries only
    /// the error, never bytes for the client.
    pub fn on_connect_failure(&mut self) -> (r: SessionError)
        requires
            old(self).state is Connecting,
        ensures
            r == SessionError::DestinationUnreachable,
            final(self).state is Closed,
    {
        self.state = SessionState::Closed;
        SessionError::DestinationUnreachable
    }

    /// Builds the success reply once the outbound socket is connected.
    /// `local` is the local endpoint that socket was bound to: the reply
    /// tells the client the proxy's own address toward the destination,
    /// not the destination itself. The session then starts relaying.
    pub fn on_connect_success(&mut self, local: &HostAddr) -> (r: Vec<u8>)
        requires
            old(self).state is Connecting,
            local.wf(),
        ensures
            r@ == spec_reply(*local),
            final(self).state is Relaying,
    {
        self.state = SessionState::Relaying;
        let mut reply: Vec<u8> = Vec::new();
        reply.push(SOCKS_VERSION);
        reply.push(REP_SUCCEEDED);
        reply.push(0u8);
        match local {
            HostAddr::V4 { ip, port } => {
                reply.push(ATYP_V4);
                push_bytes(&mut reply, ip);
                reply.push((*port / 256) as u8);
                reply.push((*port % 256) as u8);
                proof {
                    assert(reply@ =~= spec_reply(*local));
                }
            },
            HostAddr::V6 { ip, port } => {
                reply.push(ATYP_V6);
                push_bytes(&mut reply, ip);
                reply.push((*port / 256) as u8);
                reply.push((*port % 256) as u8);
                proof {
                    assert(reply@ =~= spec_reply(*local));
                }
            },
        }
        reply
    }

    /// Records that the relay finished (in either direction, normally or
    /// with an error): the session is over.
    pub fn on_relay_done(&mut self)
        requires
            old(self).state is Relaying,
        ensures
            final(self).state is Closed,
    {
        self.state = SessionState::Closed;
    }
}

/// Whether the offered method list contains "no authentication required".
fn contains_no_auth(methods: &Vec<u8>) -> (r: bool)
    ensures
        r == offers_no_auth(methods@),
{
    let n = methods.len();
    let mut k: usize = 0;
    while k < n
        invariant
            n == methods@.len(),
            k <= n,
            forall|j: int| 0 <= j < k ==> methods@[j] != METHOD_NO_AUTH,
        decreases n - k,
    {
        if methods[k] == METHOD_NO_AUTH {
            proof {
                assert(offers_no_auth(methods@)) by {
                    assert(methods@[k as int] == METHOD_NO_AUTH);
                }
            }
            return true;
        }
        k = k + 1;
    }
    proof {
        assert(!offers_no_auth(methods@)) by {
            assert(forall|j: int| 0 <= j < methods@.len() ==> methods@[j] != METHOD_NO_AUTH);
        }
    }
    false
}

/// Checks one username/password subnegotiation record (RFC 1929) against
/// the rule that the credentials match when the username equals the
/// password. Returns the two-byte status reply, where 0 means success, or
/// an error when the subnegotiation version is wrong. This authenticator is
/// an optional capability: the negotiation step accepts "no authentication"
/// by default and never demands it.
pub fn check_userpass(version: u8, username: &Vec<u8>, password: &Vec<u8>) -> (r: Result<
    Vec<u8>,
    SessionError,
>)
    ensures
        version != AUTH_VERSION ==> r == Err::<Vec<u8>, SessionError>(SessionError::Violation(
            ProtocolViolation::BadAuthVersion,
        )),
        version == AUTH_VERSION ==> (match r {
            Ok(reply) => reply@ == seq![
                AUTH_VERSION,
                if username@ == password@ {
                    0u8
                } else {
                    1u8
                },
            ],
            Err(_) => false,
        }),
{
    if version != AUTH_VERSION {
        return Err(SessionError::Violation(ProtocolViolation::BadAuthVersion));
    }
    let status: u8 = if crate::text::bytes_eq(username, password) {
        0
    } else {
        1
    };
    let mut reply: Vec<u8> = Vec::new();
    reply.push(AUTH_VERSION);
    reply.push(status);
    proof {
        assert(reply@ =~= seq![
            AUTH_VERSION,
            if username@ == password@ {
                0u8
            } else {
                1u8
            },
        ]);
    }
    Ok(reply)
}

/// The name a SOCKS5 method id is logged under: the three ids this engine
/// knows by name, and for the rest the id's decimal digits with the range
/// the RFC assigns it to.
pub open spec fn spec_method_name(id: u8) -> Seq<char> {
    if id == METHOD_NO_AUTH {
        "NO AUTHENTICATION REQUIRED"@
    } else if id == 0x01 {
        "GSSAPI"@
    } else if id == METHOD_USERNAME_PASSWORD {
        "USERNAME/PASSWORD"@
    } else if id <= 0x7f {
        spec_decimal_chars(id as nat) + " (IANA ASSIGNED)"@
    } else if id <= 0xfe {
        spec_decimal_chars(id as nat) + " (RESERVED FOR PRIVATE METHODS)"@
    } else {
        spec_decimal_chars(id as nat) + " (NO ACCEPTABLE METHODS)"@
    }
}

/// Renders a SOCKS5 authentication method id for logging.
pub fn authentication_method_name(id: u8) -> (r: String)
    ensures
        r@ == spec_method_name(id),
{
    if id == METHOD_NO_AUTH {
        String::from_str("NO AUTHENTICATION REQUIRED")
    } else if id == 0x01 {
        String::from_str("GSSAPI")
    } else if id == METHOD_USERNAME_PASSWORD {
        String::from_str("USERNAME/PASSWORD")
    } else {
        let mut s = decimal_string(id);
        if id <= 0x7f {
            s.append(" (IANA ASSIGNED)");
        } else if id <= 0xfe {
            s.append(" (RESERVED FOR PRIVATE METHODS)");
        } else {
            s.append(" (NO ACCEPTABLE METHODS)");
        }
        s
    }
}

} // verus!
