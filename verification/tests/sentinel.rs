use std::time::Duration;

use sentinel_pool::connection::{ConnectionAddr, ConnectionInfo, RedisConnectionInfo};
use sentinel_pool::pool::{BuildError, Pool, PoolConfig, Runtime, Timeouts};
use sentinel_pool::sentinel::{
    default_master_name, Config, ConfigError, CreatePoolError, Manager, ManagerError,
    SentinelNodeConnectionInfo, SentinelNodes, SentinelServerType, TlsMode,
};
use sentinel_pool::state::Status;

fn urls() -> Vec<String> {
    vec!["redis://127.0.0.1:26379".to_string(), "redis://127.0.0.1:26380".to_string()]
}

fn tcp(info: &ConnectionInfo) -> (String, u16) {
    match &info.addr {
        ConnectionAddr::Tcp(host, port) => (host.clone(), *port),
        other => panic!("unexpected address {:?}", other),
    }
}

#[test]
fn the_default_master_name() {
    assert_eq!(default_master_name(), "mymaster");
}

#[test]
fn defaults_of_the_small_types() {
    assert_eq!(SentinelServerType::default(), SentinelServerType::Master);
    assert_eq!(TlsMode::default(), TlsMode::Secure);
    let info = SentinelNodeConnectionInfo::default();
    assert!(info.tls_mode.is_none());
    assert!(info.redis_connection_info.is_none());
    let info = ConnectionInfo::default();
    assert_eq!(tcp(&info), ("127.0.0.1".to_string(), 6379));
    assert_eq!(info.redis.db, 0);
    assert!(info.redis.username.is_none() && info.redis.password.is_none());
}

#[test]
fn the_default_configuration_asks_one_local_sentinel() {
    let cfg = Config::default();
    assert!(cfg.urls.is_none());
    let connections = cfg.connections.as_ref().unwrap();
    assert_eq!(connections.len(), 1);
    assert_eq!(tcp(&connections[0]), ("127.0.0.1".to_string(), 26379));
    assert_eq!(connections[0].redis.db, 0);
    assert_eq!(cfg.server_type, SentinelServerType::Master);
    assert_eq!(cfg.master_name, "mymaster");
    assert!(cfg.pool.is_none());
    assert!(cfg.node_connection_info.is_none());
}

#[test]
fn from_urls_keeps_what_it_is_given() {
    let cfg = Config::from_urls(urls(), "primary".to_string(), SentinelServerType::Replica);
    assert_eq!(cfg.urls, Some(urls()));
    assert!(cfg.connections.is_none());
    assert_eq!(cfg.master_name, "primary");
    assert_eq!(cfg.server_type, SentinelServerType::Replica);
    assert!(cfg.pool.is_none());
    assert!(cfg.node_connection_info.is_none());
    // anything that converts into a list of URLs will do
    let cfg = Config::from_urls(
        ["redis://a".to_string(), "redis://b".to_string()],
        "m".to_string(),
        SentinelServerType::Master,
    );
    assert_eq!(cfg.urls, Some(vec!["redis://a".to_string(), "redis://b".to_string()]));
    let cfg = Config::from_url_list(urls(), "m".to_string(), SentinelServerType::Master);
    assert_eq!(cfg.urls, Some(urls()));
}

#[test]
fn with_node_connection_info_sets_only_that() {
    let info = SentinelNodeConnectionInfo {
        tls_mode: Some(TlsMode::Insecure),
        redis_connection_info: Some(RedisConnectionInfo {
            db: 3,
            username: Some("u".to_string()),
            password: None,
        }),
    };
    let cfg = Config::from_urls(urls(), "m".to_string(), SentinelServerType::Master)
        .with_node_connection_info(Some(info));
    let got = cfg.node_connection_info.as_ref().unwrap();
    assert_eq!(got.tls_mode, Some(TlsMode::Insecure));
    let redis = got.redis_connection_info.as_ref().unwrap();
    assert_eq!(redis.db, 3);
    assert_eq!(redis.username, Some("u".to_string()));
    assert_eq!(redis.password, None);
    assert_eq!(cfg.urls, Some(urls()));
    assert_eq!(cfg.master_name, "m");
    let cfg = cfg.with_node_connection_info(None);
    assert!(cfg.node_connection_info.is_none());
}

#[test]
fn get_pool_config_falls_back_to_the_default() {
    let mut cfg = Config::default();
    let c = cfg.get_pool_config();
    assert_eq!(c.max_size, usize::MAX);
    assert!(!c.timeouts.is_limited());
    cfg.pool = Some(PoolConfig {
        max_size: 16,
        timeouts: Timeouts { wait: Some(Duration::from_secs(2)), create: None, recycle: None },
    });
    let c = cfg.get_pool_config();
    assert_eq!(c.max_size, 16);
    assert_eq!(c.timeouts.wait, Some(Duration::from_secs(2)));
}

#[test]
fn builder_refuses_sentinels_named_in_both_ways() {
    let mut cfg = Config::default();
    cfg.urls = Some(urls());
    assert!(matches!(cfg.builder::<u8>(), Err(ConfigError::UrlAndConnectionSpecified)));
    assert!(matches!(
        cfg.create_pool::<u8>(None),
        Err(CreatePoolError::Config(ConfigError::UrlAndConnectionSpecified))
    ));
    // also where both lists are empty
    cfg.urls = Some(Vec::new());
    cfg.connections = Some(Vec::new());
    assert!(matches!(cfg.builder::<u8>(), Err(ConfigError::UrlAndConnectionSpecified)));
}

#[test]
fn builder_refuses_an_empty_list_of_sentinels() {
    let cfg = Config::from_urls(Vec::<String>::new(), "m".to_string(), SentinelServerType::Master);
    assert!(matches!(
        cfg.builder::<u8>(),
        Err(ConfigError::Manager(ManagerError::NoSentinels))
    ));
    let mut cfg = Config::default();
    cfg.connections = Some(Vec::new());
    assert!(matches!(
        cfg.create_pool::<u8>(Some(Runtime::Tokio1)),
        Err(CreatePoolError::Config(ConfigError::Manager(ManagerError::NoSentinels)))
    ));
}

#[test]
fn builder_hands_the_urls_to_the_manager() {
    let mut cfg = Config::from_urls(urls(), "primary".to_string(), SentinelServerType::Replica);
    cfg.pool = Some(PoolConfig::new(9));
    cfg.node_connection_info =
        Some(SentinelNodeConnectionInfo { tls_mode: Some(TlsMode::Secure), redis_connection_info: None });
    let b = cfg.builder::<u8>().unwrap();
    match &b.manager.nodes {
        SentinelNodes::Urls(u) => assert_eq!(u, &urls()),
        other => panic!("unexpected nodes {:?}", other),
    }
    assert_eq!(b.manager.master_name, "primary");
    assert_eq!(b.manager.server_type, SentinelServerType::Replica);
    assert_eq!(b.manager.node_connection_info.as_ref().unwrap().tls_mode, Some(TlsMode::Secure));
    assert_eq!(b.config.max_size, 9);
    assert_eq!(b.runtime, None);
}

#[test]
fn builder_hands_the_connections_to_the_manager() {
    let cfg = Config::default();
    let b = cfg.builder::<u8>().unwrap();
    match &b.manager.nodes {
        SentinelNodes::Connections(c) => {
            assert_eq!(c.len(), 1);
            assert_eq!(tcp(&c[0]), ("127.0.0.1".to_string(), 26379));
        }
        other => panic!("unexpected nodes {:?}", other),
    }
    assert_eq!(b.manager.master_name, "mymaster");
    assert_eq!(b.manager.server_type, SentinelServerType::Master);
    assert!(b.manager.node_connection_info.is_none());
    assert_eq!(b.config.max_size, usize::MAX);
}

#[test]
fn builder_falls_back_to_one_local_connection() {
    let mut cfg = Config::default();
    cfg.connections = None;
    let b = cfg.builder::<u8>().unwrap();
    match &b.manager.nodes {
        SentinelNodes::Connections(c) => {
            assert_eq!(c.len(), 1);
            assert_eq!(tcp(&c[0]), ("127.0.0.1".to_string(), 6379));
            assert_eq!(c[0].redis.db, 0);
            assert!(c[0].redis.username.is_none() && c[0].redis.password.is_none());
        }
        other => panic!("unexpected nodes {:?}", other),
    }
}

#[test]
fn a_manager_needs_a_sentinel() {
    let none = Manager::new(
        SentinelNodes::Urls(Vec::new()),
        "m".to_string(),
        None,
        SentinelServerType::Master,
    );
    assert!(matches!(none, Err(ManagerError::NoSentinels)));
    let none = Manager::new(
        SentinelNodes::Connections(Vec::new()),
        "m".to_string(),
        None,
        SentinelServerType::Master,
    );
    assert!(matches!(none, Err(ManagerError::NoSentinels)));
    let one = Manager::new(
        SentinelNodes::Urls(vec!["redis://h".to_string()]),
        "m".to_string(),
        None,
        SentinelServerType::Replica,
    )
    .unwrap();
    assert_eq!(one.nodes.len(), 1);
    assert_eq!(one.master_name, "m");
    assert_eq!(one.server_type, SentinelServerType::Replica);
}

#[test]
fn create_pool_builds_an_empty_pool() {
    let mut cfg = Config::from_urls(urls(), "m".to_string(), SentinelServerType::Master);
    cfg.pool = Some(PoolConfig::new(16));
    let pool: Pool<Manager, u8> = cfg.create_pool(Some(Runtime::Tokio1)).unwrap();
    assert_eq!(pool.state.status(), Status { size: 0, available: 0, waiting: 0 });
    assert_eq!(pool.state.max_size(), 16);
    assert!(!pool.state.is_closed());
    assert_eq!(pool.runtime, Some(Runtime::Tokio1));
    assert!(!pool.timeouts.is_limited());
    assert_eq!(pool.manager.master_name, "m");
    let pool: Pool<Manager, u8> = cfg.create_pool(None).unwrap();
    assert_eq!(pool.runtime, None);
}

#[test]
fn create_pool_needs_a_runtime_for_time_limits() {
    let mut cfg = Config::default();
    cfg.pool = Some(PoolConfig {
        max_size: 4,
        timeouts: Timeouts { wait: None, create: Some(Duration::from_secs(1)), recycle: None },
    });
    assert!(matches!(
        cfg.create_pool::<u8>(None),
        Err(CreatePoolError::Build(BuildError::NoRuntimeSpecified))
    ));
    let pool = cfg.create_pool::<u8>(Some(Runtime::AsyncStd1)).unwrap();
    assert_eq!(pool.timeouts.create, Some(Duration::from_secs(1)));
    assert_eq!(pool.state.max_size(), 4);
}

#[test]
fn a_copy_of_a_configuration_holds_the_same() {
    let mut cfg = Config::from_urls(urls(), "m".to_string(), SentinelServerType::Replica);
    cfg.connections = Some(vec![ConnectionInfo {
        addr: ConnectionAddr::TcpTls { host: "h".to_string(), port: 1, insecure: true },
        redis: RedisConnectionInfo { db: 2, username: None, password: Some("p".to_string()) },
    }]);
    cfg.pool = Some(PoolConfig::new(5));
    let copy = cfg.clone();
    assert_eq!(copy.urls, cfg.urls);
    assert_eq!(copy.master_name, "m");
    assert_eq!(copy.server_type, SentinelServerType::Replica);
    assert_eq!(copy.pool.unwrap().max_size, 5);
    let c = &copy.connections.as_ref().unwrap()[0];
    match &c.addr {
        ConnectionAddr::TcpTls { host, port, insecure } => {
            assert_eq!((host.as_str(), *port, *insecure), ("h", 1, true));
        }
        other => panic!("unexpected address {:?}", other),
    }
    assert_eq!(c.redis.db, 2);
    assert_eq!(c.redis.password, Some("p".to_string()));
    let unix = ConnectionAddr::Unix("/tmp/s".to_string());
    assert!(matches!(unix.clone(), ConnectionAddr::Unix(p) if p == "/tmp/s"));
    let plain = ConnectionAddr::Tcp("h".to_string(), 2).clone();
    assert!(matches!(plain, ConnectionAddr::Tcp(h, 2) if h == "h"));
}
