//! Startup configuration, one record per listener kind.
//!
//! The command-line layer around the library fills these in; the defaults
//! here are the documented ones: every listener disabled, bound to
//! `0.0.0.0`, on ports 1080 (SOCKS5), 1081 (HTTP) and 1082 (tunnel). At
//! least one listener must be enabled, which that outer layer enforces
//! with [`Proxy::any_enabled`].

use vstd::prelude::*;
use vstd::string::StringExecFns;

verus! {

/// The default bind address of every listener.
pub const DEFAULT_BIND_IP: &'static str = "0.0.0.0";

/// The default SOCKS5 listener port.
pub const DEFAULT_SOCKS5_PORT: u16 = 1080;

/// The default HTTP proxy listener port.
pub const DEFAULT_HTTP_PORT: u16 = 1081;

/// The default tunnel node listener port.
pub const DEFAULT_TUNNEL_PORT: u16 = 1082;

/// The SOCKS5 listener's configuration.
#[derive(Clone, Debug)]
pub struct Socks5 {
    /// Whether to start the SOCKS5 proxy server.
    pub enabled: bool,
    /// The IP address it listens on.
    pub ip: String,
    /// The port it listens on.
    pub port: u16,
}

impl Default for Socks5 {
    /// Disabled, on `0.0.0.0:1080`.
    fn default() -> (c: Socks5)
        ensures
            !c.enabled,
            c.ip@ == DEFAULT_BIND_IP@,
            c.port == DEFAULT_SOCKS5_PORT,
    {
        Socks5 { enabled: false, ip: String::from_str(DEFAULT_BIND_IP), port: DEFAULT_SOCKS5_PORT }
    }
}

/// The HTTP proxy listener's configuration.
#[derive(Clone, Debug)]
pub struct Http {
    /// Whether to start the HTTP proxy server.
    pub enabled: bool,
    /// The IP address it listens on.
    pub ip: String,
    /// The port it listens on.
    pub port: u16,
    /// The chain node ("host:port") CONNECT requests are tunneled through,
    /// when one is configured; otherwise targets are connected directly.
    pub tunnel_addr: Option<String>,
}

impl Default for Http {
    /// Disabled, on `0.0.0.0:1081`, with no chain node.
    fn default() -> (c: Http)
        ensures
            !c.enabled,
            c.ip@ == DEFAULT_BIND_IP@,
            c.port == DEFAULT_HTTP_PORT,
            c.tunnel_addr is None,
    {
        Http {
            enabled: false,
            ip: String::from_str(DEFAULT_BIND_IP),
            port: DEFAULT_HTTP_PORT,
            tunnel_addr: None,
        }
    }
}

/// The tunnel node listener's configuration.
#[derive(Clone, Debug)]
pub struct Tunnel {
    /// Whether to start the tunnel server.
    pub enabled: bool,
    /// The IP address it listens on.
    pub ip: String,
    /// The port it listens on.
    pub port: u16,
}

impl Default for Tunnel {
    /// Disabled, on `0.0.0.0:1082`.
    fn default() -> (c: Tunnel)
        ensures
            !c.enabled,
            c.ip@ == DEFAULT_BIND_IP@,
            c.port == DEFAULT_TUNNEL_PORT,
    {
        Tunnel { enabled: false, ip: String::from_str(DEFAULT_BIND_IP), port: DEFAULT_TUNNEL_PORT }
    }
}

/// The optional authenticator capability: when required, the SOCKS5
/// negotiation demands username/password subnegotiation instead of
/// accepting "no authentication". It is currently never required.
#[derive(Clone, Debug)]
pub struct Auth {
    /// Whether authentication is required to use the proxy.
    pub auth_required: bool,
    /// The file naming the valid users, when authentication is required.
    pub auth_users: Option<String>,
}

impl Default for Auth {
    /// Not required, with no user file.
    fn default() -> (c: Auth)
        ensures
            !c.auth_required,
            c.auth_users is None,
    {
        Auth { auth_required: false, auth_users: None }
    }
}

/// The configurations of the three listener kinds.
#[derive(Clone, Debug)]
pub struct Proxy {
    pub socks5: Socks5,
    pub http: Http,
    pub tunnel: Tunnel,
}

impl Proxy {
    /// Whether at least one listener is enabled; a configuration where none
    /// is does nothing and is rejected by the layer that builds it.
    pub fn any_enabled(&self) -> (r: bool)
        ensures
            r == (self.socks5.enabled || self.http.enabled || self.tunnel.enabled),
    {
        self.socks5.enabled || self.http.enabled || self.tunnel.enabled
    }
}

impl Default for Proxy {
    /// Every listener disabled, on its default address.
    fn default() -> (c: Proxy)
        ensures
            !c.socks5.enabled,
            !c.http.enabled,
            !c.tunnel.enabled,
    {
        Proxy { socks5: Socks5::default(), http: Http::default(), tunnel: Tunnel::default() }
    }
}

/// Everything the command line configures.
#[derive(Clone, Debug)]
pub struct Cli {
    pub proxy: Proxy,
}

impl Default for Cli {
    /// The default proxy configuration.
    fn default() -> (c: Cli)
        ensures
            !c.proxy.socks5.enabled,
            !c.proxy.http.enabled,
            !c.proxy.tunnel.enabled,
    {
        Cli { proxy: Proxy::default() }
    }
}

} // verus!
