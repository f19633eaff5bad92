use xmrt_mesh::config::{Cli, Config};

fn cli() -> Cli {
    Cli {
        config: "config.toml".to_string(),
        name: None,
        port: None,
        peers: vec![],
        relay: None,
        log_level: "info".to_string(),
    }
}

fn file_config() -> Config {
    Config {
        agent_name: "eliza-dev".to_string(),
        port: 9100,
        key_file: Some("key.hex".to_string()),
        bootstrap_peers: vec!["/ip4/10.0.0.1/tcp/9000".to_string()],
        capabilities: vec!["bash".to_string(), "node".to_string()],
        relay_url: Some("http://localhost:8081".to_string()),
        mdns_enabled: false,
        announce_topic: "/custom/agents".to_string(),
        task_protocol: "/custom/tasks".to_string(),
    }
}

#[test]
fn default_config_values() {
    let cfg = Config::default();
    assert_eq!(cfg.agent_name, "unknown");
    assert_eq!(cfg.port, 9000);
    assert_eq!(cfg.key_file, None);
    assert!(cfg.bootstrap_peers.is_empty());
    assert_eq!(cfg.capabilities, vec!["bash".to_string()]);
    assert_eq!(cfg.relay_url, None);
    assert!(cfg.mdns_enabled);
    assert_eq!(cfg.announce_topic, "/xmrt/mesh/agents/0.1.0");
    assert_eq!(cfg.task_protocol, "/xmrt/mesh/tasks/0.1.0");
}

#[test]
fn load_without_file_or_flags_is_default() {
    assert_eq!(Config::load(None, &cli()), Config::default());
}

#[test]
fn load_without_flags_keeps_file() {
    assert_eq!(Config::load(Some(file_config()), &cli()), file_config());
}

#[test]
fn flags_override_file_values() {
    let mut c = cli();
    c.name = Some("hermes".to_string());
    c.port = Some(9001);
    c.peers = vec!["/ip4/192.168.14.115/tcp/9000".to_string()];
    c.relay = Some("http://relay:8081".to_string());
    let cfg = Config::load(Some(file_config()), &c);
    assert_eq!(cfg.agent_name, "hermes");
    assert_eq!(cfg.port, 9001);
    assert_eq!(cfg.bootstrap_peers, vec!["/ip4/192.168.14.115/tcp/9000".to_string()]);
    assert_eq!(cfg.relay_url, Some("http://relay:8081".to_string()));
    assert_eq!(cfg.key_file, Some("key.hex".to_string()));
    assert_eq!(cfg.capabilities, vec!["bash".to_string(), "node".to_string()]);
    assert!(!cfg.mdns_enabled);
    assert_eq!(cfg.announce_topic, "/custom/agents");
    assert_eq!(cfg.task_protocol, "/custom/tasks");
}

#[test]
fn flags_override_defaults() {
    let mut c = cli();
    c.name = Some("eliza".to_string());
    let cfg = Config::load(None, &c);
    assert_eq!(cfg.agent_name, "eliza");
    assert_eq!(cfg.port, 9000);
}

#[test]
fn empty_peer_flag_keeps_configured_peers() {
    let mut c = cli();
    c.port = Some(1);
    let cfg = Config::load(Some(file_config()), &c);
    assert_eq!(cfg.bootstrap_peers, file_config().bootstrap_peers);
    assert_eq!(cfg.port, 1);
}

#[test]
fn applying_flags_twice_is_applying_them_once() {
    let mut c = cli();
    c.name = Some("n".to_string());
    c.peers = vec!["/ip4/1.2.3.4/tcp/1".to_string()];
    let once = Config::load(Some(file_config()), &c);
    let mut twice = once.clone();
    twice.apply_overrides(&c);
    assert_eq!(once, twice);
}

#[test]
fn config_copy_is_equal() {
    assert_eq!(file_config().copy(), file_config());
}

#[test]
fn mdns_discovery_follows_config() {
    assert!(Config::default().mdns_discovery());
    assert!(!file_config().mdns_discovery());
}
