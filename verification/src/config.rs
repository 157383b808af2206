use vstd::prelude::*;
use vstd::string::*;

verus! {

/// Node identity and storage-root settings.
#[derive(Clone, Debug)]
pub struct NodeConfig {
    /// Root directory for all node data.
    pub root_path: String,
    /// Location of the node's own config file.
    pub config_path: String,
}

/// Embedded key-value store settings.
#[derive(Clone, Debug)]
pub struct RocksConfig {
    /// Directory that holds the database files.
    pub path: String,
}

/// RPC server bind settings.
#[derive(Clone, Debug)]
pub struct JsonRpcServerConfig {
    /// Address the RPC server binds to.
    pub address: String,
}

/// Peer networking settings.
#[derive(Clone, Debug)]
pub struct P2pConfig {
    /// Directory that holds peer-networking configuration.
    pub config_path: String,
}

/// Logging settings.
#[derive(Clone, Debug)]
pub struct TracingConfig {
    /// Directory that holds log files.
    pub path: String,
}

/// The composite configuration used across the node: five named
/// sections, each independently defaultable.
#[derive(Clone, Debug)]
pub struct RamdConfig {
    /// Configuration for the node itself.
    pub node: NodeConfig,
    /// Configuration for the embedded storage engine.
    pub rocks: RocksConfig,
    /// Configuration for the RPC server.
    pub json_rpc: JsonRpcServerConfig,
    /// Configuration for the peer-networking layer.
    pub p2p: P2pConfig,
    /// Configuration for logging.
    pub tracing: TracingConfig,
}

/// The mathematical model of a `RamdConfig`: the six character
/// sequences that the sections carry.
#[verifier::ext_equal]
pub struct ConfigV {
    pub node_root: Seq<char>,
    pub node_config: Seq<char>,
    pub rocks_path: Seq<char>,
    pub rpc_address: Seq<char>,
    pub p2p_config: Seq<char>,
    pub tracing_path: Seq<char>,
}

impl View for RamdConfig {
    type V = ConfigV;

    open spec fn view(&self) -> ConfigV {
        ConfigV {
            node_root: self.node.root_path@,
            node_config: self.node.config_path@,
            rocks_path: self.rocks.path@,
            rpc_address: self.json_rpc.address@,
            p2p_config: self.p2p.config_path@,
            tracing_path: self.tracing.path@,
        }
    }
}

pub open spec fn default_node_root() -> Seq<char> {
    ".ramd"@
}

pub open spec fn default_node_config() -> Seq<char> {
    ".ramd/config/ramd.toml"@
}

pub open spec fn default_rocks_path() -> Seq<char> {
    "db"@
}

pub open spec fn default_rpc_address() -> Seq<char> {
    "127.0.0.1:8545"@
}

pub open spec fn default_p2p_config() -> Seq<char> {
    ".ramd/p2p"@
}

pub open spec fn default_tracing_path() -> Seq<char> {
    "logs"@
}

/// The fully-default configuration value.
pub open spec fn spec_default_config() -> ConfigV {
    ConfigV {
        node_root: default_node_root(),
        node_config: default_node_config(),
        rocks_path: default_rocks_path(),
        rpc_address: default_rpc_address(),
        p2p_config: default_p2p_config(),
        tracing_path: default_tracing_path(),
    }
}

impl Default for NodeConfig {
    fn default() -> (c: NodeConfig)
        ensures
            c.root_path@ == default_node_root(),
            c.config_path@ == default_node_config(),
    {
        NodeConfig {
            root_path: String::from_str(".ramd"),
            config_path: String::from_str(".ramd/config/ramd.toml"),
        }
    }
}

impl Default for RocksConfig {
    fn default() -> (c: RocksConfig)
        ensures
            c.path@ == default_rocks_path(),
    {
        RocksConfig { path: String::from_str("db") }
    }
}

impl Default for JsonRpcServerConfig {
    fn default() -> (c: JsonRpcServerConfig)
        ensures
            c.address@ == default_rpc_address(),
    {
        JsonRpcServerConfig { address: String::from_str("127.0.0.1:8545") }
    }
}

impl Default for P2pConfig {
    fn default() -> (c: P2pConfig)
        ensures
            c.config_path@ == default_p2p_config(),
    {
        P2pConfig { config_path: String::from_str(".ramd/p2p") }
    }
}

impl Default for TracingConfig {
    fn default() -> (c: TracingConfig)
        ensures
            c.path@ == default_tracing_path(),
    {
        TracingConfig { path: String::from_str("logs") }
    }
}

impl Default for RamdConfig {
    fn default() -> (c: RamdConfig)
        ensures
            c@ == spec_default_config(),
    {
        let c = RamdConfig {
            node: NodeConfig::default(),
            rocks: RocksConfig::default(),
            json_rpc: JsonRpcServerConfig::default(),
            p2p: P2pConfig::default(),
            tracing: TracingConfig::default(),
        };
        proof {
            assert(c@ =~= spec_default_config());
        }
        c
    }
}

impl PartialEq for RamdConfig {
    fn eq(&self, other: &Self) -> (r: bool) {
        let r = self.node.root_path == other.node.root_path
            && self.node.config_path == other.node.config_path
            && self.rocks.path == other.rocks.path
            && self.json_rpc.address == other.json_rpc.address
            && self.p2p.config_path == other.p2p.config_path
            && self.tracing.path == other.tracing.path;
        proof {
            if r {
                assert(self@ =~= other@);
            }
        }
        r
    }
}

impl vstd::std_specs::cmp::PartialEqSpecImpl for RamdConfig {
    open spec fn obeys_eq_spec() -> bool {
        true
    }

    open spec fn eq_spec(&self, other: &Self) -> bool {
        self@ == other@
    }
}

} // verus!
