use steel_proxy::backends::BackendMap;
use steel_proxy::config::{
    default_bind_address, default_bind_port, default_build_timeout, default_cpu_limit,
    default_database_path, default_image_name, default_instance_timeout, default_memory_limit,
    default_node_address, default_online_mode, default_public_address, BackendServer, ConfigError,
    ProxyConfig, ResourceLimits,
};

fn backend(port: u16) -> BackendServer {
    BackendServer { address: "127.0.0.1".to_string(), port, description: None }
}

fn config(default_server: &str, names: &[&str]) -> ProxyConfig {
    let mut backends = BackendMap::new();
    for (i, name) in names.iter().enumerate() {
        backends.insert(name.to_string(), backend(i as u16));
    }
    ProxyConfig {
        bind_address: default_bind_address(),
        bind_port: default_bind_port(),
        public_address: default_public_address(),
        online_mode: false,
        database_path: default_database_path(),
        default_server: default_server.to_string(),
        backends,
        kubernetes: None,
        jenkins: None,
        github: None,
    }
}

#[test]
fn settings_with_their_default_server_are_accepted() {
    let c = ProxyConfig::load(config("survival", &["creative", "survival"])).unwrap();
    assert_eq!(c.default_server, "survival");
    assert_eq!(c.backends.len(), 2);
}

#[test]
fn settings_without_backends_are_refused() {
    let e = ProxyConfig::load(config("survival", &[])).unwrap_err();
    assert!(matches!(e, ConfigError::NoBackends));
    assert_eq!(e.message(), "No backend servers configured");
}

#[test]
fn settings_without_their_default_server_are_refused() {
    let e = ProxyConfig::load(config("survival", &["creative"])).unwrap_err();
    assert!(matches!(&e, ConfigError::DefaultMissing { name } if name == "survival"));
    assert_eq!(e.message(), "Default server 'survival' not found in backends");
}

#[test]
fn new_settings_are_accepted() {
    let c = ProxyConfig::create_default();
    assert_eq!(c.bind_address, "0.0.0.0");
    assert_eq!(c.bind_port, 25565);
    assert_eq!(c.public_address, "localhost");
    assert!(c.online_mode);
    assert_eq!(c.database_path, "steel-proxy.db");
    assert_eq!(c.default_server, "lobby");
    assert_eq!(c.backends.get("lobby").unwrap().port, 25566);
    assert_eq!(c.backends.get("lobby").unwrap().description.as_deref(), Some("Lobby server"));
    assert_eq!(c.backends.get("survival").unwrap().port, 25567);
    assert_eq!(
        c.backends.get("survival").unwrap().description.as_deref(),
        Some("Survival server")
    );
    assert!(c.kubernetes.is_none() && c.jenkins.is_none() && c.github.is_none());
    let copy = c.clone();
    assert_eq!(copy.backends.len(), 2);
    assert!(ProxyConfig::load(c).is_ok());
}

#[test]
fn values_where_none_are_set() {
    assert_eq!(default_online_mode(), true);
    assert_eq!(default_instance_timeout(), 30);
    assert_eq!(default_image_name(), "steel-server");
    assert_eq!(default_memory_limit(), "2Gi");
    assert_eq!(default_cpu_limit(), "1000m");
    assert_eq!(default_build_timeout(), 15);
    assert_eq!(default_node_address(), "127.0.0.1");
    let limits = ResourceLimits::default();
    assert_eq!((limits.memory.as_str(), limits.cpu.as_str()), ("2Gi", "1000m"));
}

#[test]
fn backends_are_kept_by_name() {
    let mut m = BackendMap::new();
    assert!(m.is_empty());
    m.insert("a".to_string(), backend(1));
    m.insert("b".to_string(), backend(2));
    m.insert("a".to_string(), backend(3));
    assert_eq!(m.len(), 2);
    assert_eq!(m.entry(0).0, "a");
    assert_eq!(m.get("a").unwrap().port, 3);
    assert!(m.get("c").is_none());
    assert_eq!(m.remove("a").unwrap().port, 3);
    assert!(m.remove("a").is_none());
    assert!(!m.contains_key("a"));
    assert!(m.contains_key("b"));
    assert_eq!(m.len(), 1);
}
