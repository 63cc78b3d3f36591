//! Where a server is reached and how a connection to it is prepared.

use vstd::prelude::*;

verus! {

/// The address of a server.
#[derive(Debug)]
pub enum ConnectionAddr {
    /// Host and port, in the clear.
    Tcp(String, u16),
    /// Host and port, over TLS.
    TcpTls {
        /// Host name.
        host: String,
        /// Port.
        port: u16,
        /// Whether certificates go unchecked.
        insecure: bool,
    },
    /// Path of a Unix socket.
    Unix(String),
}

/// What is settled on a connection once it stands.
#[derive(Debug)]
pub struct RedisConnectionInfo {
    /// The database to select.
    pub db: i64,
    /// User name, if one is used.
    pub username: Option<String>,
    /// Password, if one is used.
    pub password: Option<String>,
}

/// Address and settings of one connection.
#[derive(Debug)]
pub struct ConnectionInfo {
    /// Where to connect.
    pub addr: ConnectionAddr,
    /// What to settle once connected.
    pub redis: RedisConnectionInfo,
}

/// A copy of an optional string.
fn clone_text(text: &Option<String>) -> (r: Option<String>)
    ensures
        r == *text,
{
    match text {
        Some(s) => Some(s.clone()),
        None => None,
    }
}

impl Clone for ConnectionAddr {
    fn clone(&self) -> (r: Self)
        ensures
            r == *self,
    {
        match self {
            ConnectionAddr::Tcp(host, port) => ConnectionAddr::Tcp(host.clone(), *port),
            ConnectionAddr::TcpTls { host, port, insecure } => ConnectionAddr::TcpTls {
                host: host.clone(),
                port: *port,
                insecure: *insecure,
            },
            ConnectionAddr::Unix(path) => ConnectionAddr::Unix(path.clone()),
        }
    }
}

impl ConnectionAddr {
    /// Whether this is the address `host`:`port`, in the clear.
    pub open spec fn is_tcp(self, host: Seq<char>, port: u16) -> bool {
        self matches ConnectionAddr::Tcp(h, p) && h@ == host && p == port
    }
}

impl Default for ConnectionAddr {
    /// The local host, on the port that a server listens on by default.
    fn default() -> (r: Self)
        ensures
            r.is_tcp("127.0.0.1"@, 6379),
    {
        ConnectionAddr::Tcp("127.0.0.1".to_owned(), 6379)
    }
}

impl Clone for RedisConnectionInfo {
    fn clone(&self) -> (r: Self)
        ensures
            r == *self,
    {
        RedisConnectionInfo {
            db: self.db,
            username: clone_text(&self.username),
            password: clone_text(&self.password),
        }
    }
}

impl RedisConnectionInfo {
    /// Whether nothing is settled: the first database, no credentials.
    pub open spec fn is_plain(self) -> bool {
        self.db == 0 && self.username is None && self.password is None
    }
}

impl Default for RedisConnectionInfo {
    fn default() -> (r: Self)
        ensures
            r.is_plain(),
    {
        RedisConnectionInfo { db: 0, username: None, password: None }
    }
}

impl Clone for ConnectionInfo {
    fn clone(&self) -> (r: Self)
        ensures
            r == *self,
    {
        ConnectionInfo { addr: self.addr.clone(), redis: self.redis.clone() }
    }
}

impl ConnectionInfo {
    /// Whether this is a plain connection to `host`:`port`, in the clear.
    pub open spec fn is_plain_tcp(self, host: Seq<char>, port: u16) -> bool {
        self.addr.is_tcp(host, port) && self.redis.is_plain()
    }
}

impl Default for ConnectionInfo {
    /// A plain connection to the local host, on the default port.
    fn default() -> (r: Self)
        ensures
            r.is_plain_tcp("127.0.0.1"@, 6379),
    {
        ConnectionInfo { addr: ConnectionAddr::default(), redis: RedisConnectionInfo::default() }
    }
}

} // verus!
