//! Connection settings, as the connect pipeline reads them.
use vstd::prelude::*;

verus! {

/// A host to connect to.
#[derive(Debug, Clone)]
pub enum Host {
    /// A TCP host name or address.
    Tcp(String),
    /// The directory of a Unix-domain socket.
    Unix(String),
}

/// Whether and how TLS is used.
#[derive(Debug, Clone, Copy, PartialEq, Eq, Structural)]
pub enum SslMode {
    Disable,
    Prefer,
    Require,
}

/// What kind of session the connection must have.
#[derive(Debug, Clone, Copy, PartialEq, Eq, Structural)]
pub enum TargetSessionAttrs {
    /// Any session will do.
    Any,
    /// The session must allow writes.
    ReadWrite,
}

/// Connection settings.
#[derive(Debug, Clone)]
pub struct Config {
    pub user: Option<String>,
    pub password: Option<Vec<u8>>,
    pub dbname: Option<String>,
    pub options: Option<String>,
    pub application_name: Option<String>,
    /// The replication mode asked for (`true`, `database`), if any.
    pub replication: Option<String>,
    pub ssl_mode: SslMode,
    /// Whether SCRAM authentication binds to the TLS channel.
    pub channel_binding: crate::startup::ChannelBinding,
    pub host: Vec<Host>,
    pub port: Vec<u16>,
    /// Seconds to wait for a socket to connect; `None` waits for ever.
    pub connect_timeout: Option<u64>,
    pub keepalives: bool,
    pub target_session_attrs: TargetSessionAttrs,
}

/// The port that serves when no port is configured.
pub const DEFAULT_PORT: u16 = 5432;

/// The port of the attempt on host `idx`: the port at the same position, or
/// the single port given for every host, or the default.
pub open spec fn port_of(ports: Seq<u16>, idx: int) -> u16 {
    if 0 <= idx < ports.len() {
        ports[idx]
    } else if ports.len() > 0 {
        ports[0]
    } else {
        DEFAULT_PORT
    }
}

impl Config {
    /// Settings with no host and no port, TLS preferred, any session.
    pub fn new() -> (r: Config)
        ensures
            r.host@.len() == 0,
            r.port@.len() == 0,
            r.ssl_mode == SslMode::Prefer,
            r.channel_binding == crate::startup::ChannelBinding::Prefer,
            r.target_session_attrs == TargetSessionAttrs::Any,
            r.user is None,
            r.dbname is None,
            r.application_name is None,
            r.options is None,
            r.replication is None,
            r.connect_timeout is None,
            r.keepalives,
    {
        Config {
            user: None,
            password: None,
            dbname: None,
            options: None,
            application_name: None,
            replication: None,
            ssl_mode: SslMode::Prefer,
            channel_binding: crate::startup::ChannelBinding::Prefer,
            host: Vec::new(),
            port: Vec::new(),
            connect_timeout: None,
            keepalives: true,
            target_session_attrs: TargetSessionAttrs::Any,
        }
    }

    /// The port of the attempt on host `idx`.
    pub fn port_for(&self, idx: usize) -> (r: u16)
        ensures
            r == port_of(self.port@, idx as int),
    {
        if idx < self.port.len() {
            self.port[idx]
        } else if self.port.len() > 0 {
            self.port[0]
        } else {
            DEFAULT_PORT
        }
    }
}

/// The name that TLS verifies for `h`: a TCP host's name, or nothing for a
/// Unix socket, over which the server offers no TLS.
pub open spec fn tls_name(h: Host) -> Seq<char> {
    match h {
        Host::Tcp(name) => name@,
        Host::Unix(_) => Seq::empty(),
    }
}

/// The name that TLS verifies for `h`.
pub fn tls_hostname(h: &Host) -> (r: &str)
    ensures
        r@ == tls_name(*h),
{
    match h {
        Host::Tcp(name) => name.as_str(),
        Host::Unix(_) => {
            proof {
                reveal_strlit("");
            }
            ""
        },
    }
}

} // verus!
