//! Node configuration: defaults, and the command-line flags laid over what
//! the configuration file holds.

use vstd::prelude::*;

use crate::identity::{has_ed25519_peer_id_shape, is_ed25519_key_encoding, NodeKey};
use crate::protocol::{clone_opt_string, clone_strings};

verus! {

/// Configuration of a mesh node.
#[derive(Debug, Clone, PartialEq, Eq)]
pub struct Config {
    /// Agent name
    pub agent_name: String,
    /// Listening port for P2P
    pub port: u16,
    /// File holding the P2P keypair (generated when absent)
    pub key_file: Option<String>,
    /// Bootstrap peers to connect to on startup
    pub bootstrap_peers: Vec<String>,
    /// Capabilities this agent provides
    pub capabilities: Vec<String>,
    /// Relay base URL
    pub relay_url: Option<String>,
    /// mDNS discovery enabled
    pub mdns_enabled: bool,
    /// Gossip topic for capability announcements
    pub announce_topic: String,
    /// Request-response protocol name
    pub task_protocol: String,
}

/// What a configuration says.
pub struct ConfigView {
    pub agent_name: Seq<char>,
    pub port: u16,
    pub key_file: Option<Seq<char>>,
    pub bootstrap_peers: Seq<Seq<char>>,
    pub capabilities: Seq<Seq<char>>,
    pub relay_url: Option<Seq<char>>,
    pub mdns_enabled: bool,
    pub announce_topic: Seq<char>,
    pub task_protocol: Seq<char>,
}

impl View for Config {
    type V = ConfigView;

    open spec fn view(&self) -> ConfigView {
        ConfigView {
            agent_name: self.agent_name@,
            port: self.port,
            key_file: self.key_file.deep_view(),
            bootstrap_peers: self.bootstrap_peers.deep_view(),
            capabilities: self.capabilities.deep_view(),
            relay_url: self.relay_url.deep_view(),
            mdns_enabled: self.mdns_enabled,
            announce_topic: self.announce_topic@,
            task_protocol: self.task_protocol@,
        }
    }
}

/// The configuration used where there is no configuration file.
pub open spec fn default_config() -> ConfigView {
    ConfigView {
        agent_name: "unknown"@,
        port: 9000,
        key_file: None,
        bootstrap_peers: Seq::empty(),
        capabilities: seq!["bash"@],
        relay_url: None,
        mdns_enabled: true,
        announce_topic: "/xmrt/mesh/agents/0.1.0"@,
        task_protocol: "/xmrt/mesh/tasks/0.1.0"@,
    }
}

/// Command-line arguments of a node.
#[derive(Debug, Clone, PartialEq, Eq)]
pub struct Cli {
    /// Config file path
    pub config: String,
    /// Agent name for capability announcements
    pub name: Option<String>,
    /// Listening port
    pub port: Option<u16>,
    /// Peers to dial on startup
    pub peers: Vec<String>,
    /// Relay base URL
    pub relay: Option<String>,
    /// Log level
    pub log_level: String,
}

/// What the command line says that bears on the configuration.
pub struct CliView {
    pub name: Option<Seq<char>>,
    pub port: Option<u16>,
    pub peers: Seq<Seq<char>>,
    pub relay: Option<Seq<char>>,
}

impl View for Cli {
    type V = CliView;

    open spec fn view(&self) -> CliView {
        CliView {
            name: self.name.deep_view(),
            port: self.port,
            peers: self.peers.deep_view(),
            relay: self.relay.deep_view(),
        }
    }
}

/// The command-line flags laid over a configuration: a given name, port or
/// relay replaces the configured one, and a non-empty peer list replaces the
/// configured bootstrap peers. Everything else stays as configured.
pub open spec fn with_overrides(base: ConfigView, cli: CliView) -> ConfigView {
    ConfigView {
        agent_name: match cli.name {
            Some(n) => n,
            None => base.agent_name,
        },
        port: match cli.port {
            Some(p) => p,
            None => base.port,
        },
        bootstrap_peers: if cli.peers.len() > 0 {
            cli.peers
        } else {
            base.bootstrap_peers
        },
        relay_url: match cli.relay {
            Some(r) => Some(r),
            None => base.relay_url,
        },
        ..base
    }
}

/// The configuration a node runs with: the file's configuration where there
/// is a file (the default one otherwise), with the command-line flags laid over it.
pub open spec fn loaded_config(from_file: Option<ConfigView>, cli: CliView) -> ConfigView {
    match from_file {
        Some(c) => with_overrides(c, cli),
        None => with_overrides(default_config(), cli),
    }
}

impl Default for Config {
    /// The configuration used where there is no configuration file.
    fn default() -> (r: Config)
        ensures
            r@ == default_config(),
    {
        let mut capabilities: Vec<String> = Vec::new();
        capabilities.push(String::from_str("bash"));
        let r = Config {
            agent_name: String::from_str("unknown"),
            port: 9000,
            key_file: None,
            bootstrap_peers: Vec::new(),
            capabilities,
            relay_url: None,
            mdns_enabled: true,
            announce_topic: String::from_str("/xmrt/mesh/agents/0.1.0"),
            task_protocol: String::from_str("/xmrt/mesh/tasks/0.1.0"),
        };
        assert(r@.capabilities =~= seq!["bash"@]);
        assert(r@.bootstrap_peers =~= Seq::<Seq<char>>::empty());
        r
    }
}

impl Config {
    /// The configuration a node runs with. `from_file` is what the
    /// configuration file holds, `None` where there is no such file; the
    /// command-line flags in `cli` are laid over it.
    pub fn load(from_file: Option<Config>, cli: &Cli) -> (cfg: Config)
        ensures
            cfg@ == loaded_config(
                match from_file {
                    Some(c) => Some(c@),
                    None => None,
                },
                cli@,
            ),
    {
        let mut cfg = match from_file {
            Some(c) => c,
            None => Config::default(),
        };
        cfg.apply_overrides(cli);
        cfg
    }

    /// Lays the command-line flags over this configuration.
    pub fn apply_overrides(&mut self, cli: &Cli)
        ensures
            final(self)@ == with_overrides(old(self)@, cli@),
    {
        match &cli.name {
            Some(name) => {
                self.agent_name = name.clone();
            },
            None => {},
        }
        match cli.port {
            Some(port) => {
                self.port = port;
            },
            None => {},
        }
        if cli.peers.len() > 0 {
            self.bootstrap_peers = clone_strings(&cli.peers);
        }
        match &cli.relay {
            Some(relay) => {
                self.relay_url = Some(relay.clone());
            },
            None => {},
        }
    }

    /// The peer id of the node's key: the same whatever the configuration,
    /// and of an Ed25519 key 52 base58 characters beginning `12D3KooW`.
    pub fn peer_id(&self, key: &NodeKey) -> (id: String)
        ensures
            id@ == key@.peer_id,
            is_ed25519_key_encoding(key@.encoded) ==> has_ed25519_peer_id_shape(id@),
    {
        key.peer_id()
    }

    /// Whether the node runs mDNS discovery of local peers.
    pub fn mdns_discovery(&self) -> (on: bool)
        ensures
            on == self@.mdns_enabled,
    {
        self.mdns_enabled
    }

    /// A copy of the configuration.
    pub fn copy(&self) -> (r: Config)
        ensures
            r@ == self@,
    {
        Config {
            agent_name: self.agent_name.clone(),
            port: self.port,
            key_file: clone_opt_string(&self.key_file),
            bootstrap_peers: clone_strings(&self.bootstrap_peers),
            capabilities: clone_strings(&self.capabilities),
            relay_url: clone_opt_string(&self.relay_url),
            mdns_enabled: self.mdns_enabled,
            announce_topic: self.announce_topic.clone(),
            task_protocol: self.task_protocol.clone(),
        }
    }
}

/// Laying the same flags over a configuration twice changes nothing more
/// than laying them once.
pub proof fn lemma_overrides_idempotent(base: ConfigView, cli: CliView)
    ensures
        with_overrides(with_overrides(base, cli), cli) == with_overrides(base, cli),
{
}

/// Without flags the configuration is the file's, or the default one where
/// there is no file.
pub proof fn lemma_no_flags_keeps_config(from_file: Option<ConfigView>, cli: CliView)
    requires
        cli.name is None,
        cli.port is None,
        cli.peers.len() == 0,
        cli.relay is None,
    ensures
        loaded_config(from_file, cli) == match from_file {
            Some(c) => c,
            None => default_config(),
        },
{
}

/// A flag that is given always wins over the configuration, whatever the
/// file said; a flag that is not given leaves the file's value in place.
pub proof fn lemma_flags_win(base: ConfigView, cli: CliView)
    ensures
        cli.name matches Some(n) ==> with_overrides(base, cli).agent_name == n,
        cli.name is None ==> with_overrides(base, cli).agent_name == base.agent_name,
        cli.port matches Some(p) ==> with_overrides(base, cli).port == p,
        cli.port is None ==> with_overrides(base, cli).port == base.port,
        cli.peers.len() > 0 ==> with_overrides(base, cli).bootstrap_peers == cli.peers,
        cli.peers.len() == 0 ==> with_overrides(base, cli).bootstrap_peers == base.bootstrap_peers,
        cli.relay is Some ==> with_overrides(base, cli).relay_url == cli.relay,
        cli.relay is None ==> with_overrides(base, cli).relay_url == base.relay_url,
        with_overrides(base, cli).key_file == base.key_file,
        with_overrides(base, cli).capabilities == base.capabilities,
        with_overrides(base, cli).mdns_enabled == base.mdns_enabled,
        with_overrides(base, cli).announce_topic == base.announce_topic,
        with_overrides(base, cli).task_protocol == base.task_protocol,
{
}

} // verus!

verus! {

/// The configuration a node runs with, field by field: each flag that is
/// given wins, whether or not there is a configuration file; every other
/// field is the file's where there is one, and otherwise the documented
/// default (`unknown`, port 9000, no key file, no peers, capability `bash`,
/// no relay, mDNS on, the `/xmrt/mesh/agents/0.1.0` and
/// `/xmrt/mesh/tasks/0.1.0` protocols).
pub proof fn lemma_loaded_config_fields(from_file: Option<ConfigView>, cli: CliView)
    ensures
        cli.name matches Some(n) ==> loaded_config(from_file, cli).agent_name == n,
        cli.port matches Some(p) ==> loaded_config(from_file, cli).port == p,
        cli.peers.len() > 0 ==> loaded_config(from_file, cli).bootstrap_peers == cli.peers,
        cli.relay matches Some(r) ==> loaded_config(from_file, cli).relay_url == Some(r),
        from_file matches Some(c) ==> {
            &&& cli.name is None ==> loaded_config(from_file, cli).agent_name == c.agent_name
            &&& cli.port is None ==> loaded_config(from_file, cli).port == c.port
            &&& cli.peers.len() == 0 ==> loaded_config(from_file, cli).bootstrap_peers
                == c.bootstrap_peers
            &&& cli.relay is None ==> loaded_config(from_file, cli).relay_url == c.relay_url
            &&& loaded_config(from_file, cli).key_file == c.key_file
            &&& loaded_config(from_file, cli).capabilities == c.capabilities
            &&& loaded_config(from_file, cli).mdns_enabled == c.mdns_enabled
            &&& loaded_config(from_file, cli).announce_topic == c.announce_topic
            &&& loaded_config(from_file, cli).task_protocol == c.task_protocol
        },
        from_file is None ==> {
            &&& cli.name is None ==> loaded_config(from_file, cli).agent_name == "unknown"@
            &&& cli.port is None ==> loaded_config(from_file, cli).port == 9000
            &&& cli.peers.len() == 0 ==> loaded_config(from_file, cli).bootstrap_peers.len() == 0
            &&& cli.relay is None ==> loaded_config(from_file, cli).relay_url is None
            &&& loaded_config(from_file, cli).key_file is None
            &&& loaded_config(from_file, cli).capabilities == seq!["bash"@]
            &&& loaded_config(from_file, cli).mdns_enabled
            &&& loaded_config(from_file, cli).announce_topic == "/xmrt/mesh/agents/0.1.0"@
            &&& loaded_config(from_file, cli).task_protocol == "/xmrt/mesh/tasks/0.1.0"@
        },
{
}

} // verus!
