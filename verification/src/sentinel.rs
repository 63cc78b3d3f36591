//! Pools of connections to a server that sentinels keep watch over.

use vstd::prelude::*;
use crate::connection::{ConnectionAddr, ConnectionInfo, RedisConnectionInfo};
use crate::model::PoolView;
use crate::pool::{BuildError, Pool, PoolBuilder, PoolConfig, Runtime, Timeouts};

verus! {

/// Which of the watched servers to connect to.
#[derive(Clone, Copy, Debug, PartialEq, Eq, Structural)]
pub enum SentinelServerType {
    /// The master only.
    Master,
    /// Replicas only.
    Replica,
}

impl Default for SentinelServerType {
    fn default() -> (r: Self)
        ensures
            r == SentinelServerType::Master,
    {
        SentinelServerType::Master
    }
}

/// How strictly TLS is applied.
#[derive(Clone, Copy, Debug, PartialEq, Eq, Structural)]
pub enum TlsMode {
    /// Certificates are checked.
    Secure,
    /// Certificates are not checked.
    Insecure,
}

impl Default for TlsMode {
    fn default() -> (r: Self)
        ensures
            r == TlsMode::Secure,
    {
        TlsMode::Secure
    }
}

/// How the servers are reached that the sentinels point to.
#[derive(Debug)]
pub struct SentinelNodeConnectionInfo {
    /// The TLS mode, or nothing for a connection in the clear.
    pub tls_mode: Option<TlsMode>,
    /// What to settle once connected, where it differs from the default.
    pub redis_connection_info: Option<RedisConnectionInfo>,
}

impl Clone for SentinelNodeConnectionInfo {
    fn clone(&self) -> (r: Self)
        ensures
            r == *self,
    {
        SentinelNodeConnectionInfo {
            tls_mode: self.tls_mode,
            redis_connection_info: match &self.redis_connection_info {
                Some(info) => Some(info.clone()),
                None => None,
            },
        }
    }
}

impl Default for SentinelNodeConnectionInfo {
    fn default() -> (r: Self)
        ensures
            r.tls_mode is None,
            r.redis_connection_info is None,
    {
        SentinelNodeConnectionInfo { tls_mode: None, redis_connection_info: None }
    }
}

/// The sentinels to ask, named in one of two ways.
#[derive(Debug)]
pub enum SentinelNodes {
    /// By URL.
    Urls(Vec<String>),
    /// By address and settings.
    Connections(Vec<ConnectionInfo>),
}

impl SentinelNodes {
    /// How many sentinels are named.
    pub open spec fn count(self) -> nat {
        match self {
            SentinelNodes::Urls(urls) => urls@.len(),
            SentinelNodes::Connections(connections) => connections@.len(),
        }
    }

    /// How many sentinels are named.
    pub fn len(&self) -> (n: usize)
        ensures
            n == self.count(),
    {
        match self {
            SentinelNodes::Urls(urls) => urls.len(),
            SentinelNodes::Connections(connections) => connections.len(),
        }
    }
}

/// Why a manager could not be made.
#[derive(Clone, Copy, Debug, PartialEq, Eq, Structural)]
pub enum ManagerError {
    /// No sentinel is named.
    NoSentinels,
}

/// What it takes to connect by way of sentinels: whom to ask, for which
/// master, and how to reach the server they name.
#[derive(Debug)]
pub struct Manager {
    /// The sentinels to ask; at least one.
    pub nodes: SentinelNodes,
    /// Name of the master that the sentinels watch.
    pub master_name: String,
    /// How the servers are reached that the sentinels point to.
    pub node_connection_info: Option<SentinelNodeConnectionInfo>,
    /// Which of the watched servers to connect to.
    pub server_type: SentinelServerType,
}

impl Manager {
    /// A manager that asks `nodes`. Fails where no sentinel is named.
    pub fn new(
        nodes: SentinelNodes,
        master_name: String,
        node_connection_info: Option<SentinelNodeConnectionInfo>,
        server_type: SentinelServerType,
    ) -> (r: Result<Manager, ManagerError>)
        ensures
            match r {
                Ok(m) => nodes.count() > 0 && m == (Manager {
                    nodes,
                    master_name,
                    node_connection_info,
                    server_type,
                }),
                Err(e) => nodes.count() == 0 && e == ManagerError::NoSentinels,
            },
    {
        if nodes.len() == 0 {
            return Err(ManagerError::NoSentinels);
        }
        Ok(Manager { nodes, master_name, node_connection_info, server_type })
    }
}

/// Why a configuration yields no pool builder.
#[derive(Clone, Copy, Debug, PartialEq, Eq, Structural)]
pub enum ConfigError {
    /// Sentinels are named both by URL and by address.
    UrlAndConnectionSpecified,
    /// The manager could not be made.
    Manager(ManagerError),
}

/// Why a configuration yields no pool.
#[derive(Clone, Copy, Debug, PartialEq, Eq, Structural)]
pub enum CreatePoolError {
    /// The configuration is at fault.
    Config(ConfigError),
    /// The pool could not be built.
    Build(BuildError),
}

/// Configuration of a pool of connections found through sentinels.
#[derive(Debug)]
pub struct Config {
    /// The sentinels, by URL.
    pub urls: Option<Vec<String>>,
    /// Which of the watched servers to connect to.
    pub server_type: SentinelServerType,
    /// Name of the master that the sentinels watch.
    pub master_name: String,
    /// The sentinels, by address and settings.
    pub connections: Option<Vec<ConnectionInfo>>,
    /// How the servers are reached that the sentinels point to.
    pub node_connection_info: Option<SentinelNodeConnectionInfo>,
    /// Ceiling and time limits of the pool.
    pub pool: Option<PoolConfig>,
}

/// The name under which a master is watched unless another is given.
pub fn default_master_name() -> (name: String)
    ensures
        name@ == "mymaster"@,
{
    "mymaster".to_owned()
}

/// A copy of a list of connections.
fn clone_connections(connections: &Vec<ConnectionInfo>) -> (r: Vec<ConnectionInfo>)
    ensures
        r@ == connections@,
{
    let mut r: Vec<ConnectionInfo> = Vec::new();
    let mut i: usize = 0;
    while i < connections.len()
        invariant
            i <= connections.len(),
            r@ == connections@.subrange(0, i as int),
        decreases connections.len() - i,
    {
        r.push(connections[i].clone());
        i = i + 1;
        assert(r@ =~= connections@.subrange(0, i as int));
    }
    assert(r@ =~= connections@);
    r
}

/// A copy of a list of URLs.
fn clone_urls(urls: &Vec<String>) -> (r: Vec<String>)
    ensures
        r@ == urls@,
{
    let mut r: Vec<String> = Vec::new();
    let mut i: usize = 0;
    while i < urls.len()
        invariant
            i <= urls.len(),
            r@ == urls@.subrange(0, i as int),
        decreases urls.len() - i,
    {
        r.push(urls[i].clone());
        i = i + 1;
        assert(r@ =~= urls@.subrange(0, i as int));
    }
    assert(r@ =~= urls@);
    r
}

impl Config {
    /// The ceiling and time limits that apply: those given, else the default.
    pub open spec fn pool_config(&self) -> PoolConfig {
        match self.pool {
            Some(config) => config,
            None => PoolConfig {
                max_size: usize::MAX,
                timeouts: Timeouts { wait: None, create: None, recycle: None },
            },
        }
    }

    /// Whether sentinels are named in both ways at once.
    pub open spec fn ambiguous(&self) -> bool {
        self.urls is Some && self.connections is Some
    }

    /// Whether sentinels are named in one way, and none of them.
    pub open spec fn names_nobody(&self) -> bool {
        match (self.urls, self.connections) {
            (Some(urls), None) => urls@.len() == 0,
            (None, Some(connections)) => connections@.len() == 0,
            _ => false,
        }
    }

    /// Whether `nodes` are the sentinels of this configuration: those named,
    /// in the way they are named; or, where none is named in either way, one
    /// on the local host.
    pub open spec fn names(&self, nodes: SentinelNodes) -> bool {
        match (self.urls, self.connections) {
            (Some(urls), None) => nodes matches SentinelNodes::Urls(u) && u@ == urls@,
            (None, Some(connections)) => nodes matches SentinelNodes::Connections(c) && c@
                == connections@,
            (None, None) => nodes matches SentinelNodes::Connections(c) && c@.len() == 1
                && c@[0].is_plain_tcp("127.0.0.1"@, 6379),
            (Some(_), Some(_)) => false,
        }
    }

    /// Whether `manager` is the one that this configuration asks for.
    pub open spec fn describes(&self, manager: Manager) -> bool {
        &&& self.names(manager.nodes)
        &&& manager.master_name == self.master_name
        &&& manager.node_connection_info == self.node_connection_info
        &&& manager.server_type == self.server_type
    }

    /// The error that keeps this configuration from yielding a pool builder,
    /// if there is one.
    pub open spec fn fault(&self) -> Option<ConfigError> {
        if self.ambiguous() {
            Some(ConfigError::UrlAndConnectionSpecified)
        } else if self.names_nobody() {
            Some(ConfigError::Manager(ManagerError::NoSentinels))
        } else {
            None
        }
    }

    /// Builds a pool from this configuration, with `runtime` to keep time.
    ///
    /// Fails where the configuration yields no builder, and where it sets a
    /// time limit while no runtime is given.
    pub fn create_pool<T>(&self, runtime: Option<Runtime>) -> (r: Result<
        Pool<Manager, T>,
        CreatePoolError,
    >)
        ensures
            match r {
                Ok(pool) => {
                    &&& self.fault() is None
                    &&& self.pool_config().timeouts.any() ==> runtime is Some
                    &&& self.describes(pool.manager)
                    &&& pool.timeouts == self.pool_config().timeouts
                    &&& pool.runtime == runtime
                    &&& pool.state.wf()
                    &&& pool.state@ == PoolView::<T>::new(self.pool_config().max_size as nat)
                },
                Err(CreatePoolError::Config(e)) => self.fault() == Some(e),
                Err(CreatePoolError::Build(e)) => {
                    &&& self.fault() is None
                    &&& self.pool_config().timeouts.any()
                    &&& runtime is None
                    &&& e == BuildError::NoRuntimeSpecified
                },
            },
    {
        let mut builder = match self.builder::<T>() {
            Ok(builder) => builder,
            Err(e) => {
                return Err(CreatePoolError::Config(e));
            },
        };
        if let Some(runtime) = runtime {
            builder = builder.runtime(runtime);
        }
        match builder.build() {
            Ok(pool) => Ok(pool),
            Err(e) => Err(CreatePoolError::Build(e)),
        }
    }

    /// Starts a pool from this configuration.
    ///
    /// Fails where sentinels are named both by URL and by address, and where
    /// the manager cannot be made because the list that names them is empty.
    pub fn builder<T>(&self) -> (r: Result<PoolBuilder<Manager, T>, ConfigError>)
        ensures
            match r {
                Ok(b) => {
                    &&& self.fault() is None
                    &&& self.describes(b.manager)
                    &&& b.config == self.pool_config()
                    &&& b.runtime is None
                },
                Err(e) => self.fault() == Some(e),
            },
    {
        let nodes = match (&self.urls, &self.connections) {
            (Some(urls), None) => SentinelNodes::Urls(clone_urls(urls)),
            (None, Some(connections)) => SentinelNodes::Connections(clone_connections(connections)),
            (None, None) => {
                let mut local: Vec<ConnectionInfo> = Vec::new();
                local.push(ConnectionInfo::default());
                SentinelNodes::Connections(local)
            },
            (Some(_), Some(_)) => {
                return Err(ConfigError::UrlAndConnectionSpecified);
            },
        };
        let node_connection_info = match &self.node_connection_info {
            Some(info) => Some(info.clone()),
            None => None,
        };
        let manager = match Manager::new(
            nodes,
            self.master_name.clone(),
            node_connection_info,
            self.server_type,
        ) {
            Ok(manager) => manager,
            Err(e) => {
                return Err(ConfigError::Manager(e));
            },
        };
        Ok(Pool::builder(manager).config(self.get_pool_config()))
    }

    /// The ceiling and time limits that apply: those given, else the default.
    #[must_use]
    pub fn get_pool_config(&self) -> (c: PoolConfig)
        ensures
            c == self.pool_config(),
    {
        match self.pool {
            Some(config) => config,
            None => PoolConfig::default(),
        }
    }

    /// A configuration that names its sentinels by the URLs that `urls`
    /// converts into, with everything else left at its default.
    #[must_use]
    pub fn from_urls<U: Into<Vec<String>>>(
        urls: U,
        master_name: String,
        server_type: SentinelServerType,
    ) -> (c: Config)
        ensures
            c.urls matches Some(u) && call_ensures(U::into, (urls,), u),
            c.connections is None,
            c.master_name == master_name,
            c.server_type == server_type,
            c.pool is None,
            c.node_connection_info is None,
    {
        Config::from_url_list(urls.into(), master_name, server_type)
    }

    /// A configuration that names its sentinels by these URLs, with
    /// everything else left at its default.
    #[must_use]
    pub fn from_url_list(
        urls: Vec<String>,
        master_name: String,
        server_type: SentinelServerType,
    ) -> (c: Config)
        ensures
            c == (Config {
                urls: Some(urls),
                connections: None,
                master_name,
                server_type,
                pool: None,
                node_connection_info: None,
            }),
    {
        Config {
            urls: Some(urls),
            connections: None,
            master_name,
            server_type,
            pool: None,
            node_connection_info: None,
        }
    }

    /// Sets how the servers are reached that the sentinels point to.
    pub fn with_node_connection_info(
        self,
        node_connection_info: Option<SentinelNodeConnectionInfo>,
    ) -> (c: Self)
        ensures
            c.node_connection_info == node_connection_info,
            c.urls == self.urls,
            c.server_type == self.server_type,
            c.master_name == self.master_name,
            c.connections == self.connections,
            c.pool == self.pool,
    {
        let mut c = self;
        c.node_connection_info = node_connection_info;
        c
    }
}

impl Clone for Config {
    fn clone(&self) -> (c: Self)
        ensures
            match (c.urls, self.urls) {
                (Some(copied), Some(urls)) => copied@ == urls@,
                (None, None) => true,
                _ => false,
            },
            match (c.connections, self.connections) {
                (Some(copied), Some(connections)) => copied@ == connections@,
                (None, None) => true,
                _ => false,
            },
            c.server_type == self.server_type,
            c.master_name == self.master_name,
            c.node_connection_info == self.node_connection_info,
            c.pool == self.pool,
    {
        Config {
            urls: match &self.urls {
                Some(urls) => Some(clone_urls(urls)),
                None => None,
            },
            connections: match &self.connections {
                Some(connections) => Some(clone_connections(connections)),
                None => None,
            },
            server_type: self.server_type,
            master_name: self.master_name.clone(),
            node_connection_info: match &self.node_connection_info {
                Some(info) => Some(info.clone()),
                None => None,
            },
            pool: self.pool,
        }
    }
}

impl Default for Config {
    /// One sentinel on the local host, watching the master under its default
    /// name.
    fn default() -> (c: Config)
        ensures
            c.urls is None,
            c.connections matches Some(connections) && connections@.len() == 1
                && connections@[0].is_plain_tcp("127.0.0.1"@, 26379),
            c.server_type == SentinelServerType::Master,
            c.master_name@ == "mymaster"@,
            c.pool is None,
            c.node_connection_info is None,
    {
        let mut local = ConnectionInfo::default();
        local.addr = ConnectionAddr::Tcp("127.0.0.1".to_owned(), 26379);
        let mut connections: Vec<ConnectionInfo> = Vec::new();
        connections.push(local);
        Config {
            urls: None,
            connections: Some(connections),
            server_type: SentinelServerType::Master,
            master_name: default_master_name(),
            pool: None,
            node_connection_info: None,
        }
    }
}

} // verus!
