use crate::codec::{decode_config, decode_spec, encode_config, encode_spec, lemma_round_trip};
use crate::config::{
    default_node_config, default_node_root, default_p2p_config, default_rpc_address, ConfigV,
    JsonRpcServerConfig, NodeConfig, P2pConfig, RamdConfig, RocksConfig, TracingConfig,
};
use crate::errors::ConfigError;
use crate::paths::{parent_prefix, popped_path};
use vstd::prelude::*;
use vstd::string::*;

verus! {

// The resolver computes every decision of config acquisition from
// plain values: the two environment lookups and the bytes read from
// the deterministic config path are handed in, and the filesystem
// steps of first-run initialization are handed back as a plan that the
// caller performs in order. This keeps the whole state machine
// `try-read, else synthesize and persist` here, while the process
// boundary performs the reads and writes.

/// The application directory name when the override variable is unset.
pub open spec fn default_dir_name() -> Seq<char> {
    ".ramd"@
}

/// The application directory name: the override where it is set, the
/// fixed default name otherwise.
pub open spec fn spec_ramd_dir_name(custom: Option<Seq<char>>) -> Seq<char> {
    match custom {
        Some(d) => d,
        None => default_dir_name(),
    }
}

/// The home directory of the process: `<HOME>/<app-dir-name>`.
pub open spec fn spec_root_dir(home: Seq<char>, dir: Seq<char>) -> Seq<char> {
    home + "/"@ + dir
}

/// The `config` subdirectory under the home directory.
pub open spec fn config_dir_of(root: Seq<char>) -> Seq<char> {
    root + "/config"@
}

/// The deterministic location of the config document.
pub open spec fn config_file_of(root: Seq<char>) -> Seq<char> {
    config_dir_of(root) + "/ramd.toml"@
}

/// The storage directory synthesized under the home directory.
pub open spec fn rocks_dir_of(root: Seq<char>) -> Seq<char> {
    root + "/db"@
}

/// The log directory synthesized under the home directory.
pub open spec fn tracing_dir_of(root: Seq<char>) -> Seq<char> {
    root + "/logs"@
}

/// The default configuration with the storage and tracing paths
/// explicitly rooted under `root`; every other section keeps its bare
/// default.
pub open spec fn spec_default_under(root: Seq<char>) -> ConfigV {
    ConfigV {
        node_root: default_node_root(),
        node_config: default_node_config(),
        rocks_path: rocks_dir_of(root),
        rpc_address: default_rpc_address(),
        p2p_config: default_p2p_config(),
        tracing_path: tracing_dir_of(root),
    }
}

/// Resolves the application directory name from the optional override.
pub fn ramd_dir_name(custom: Option<String>) -> (r: String)
    ensures
        r@ == spec_ramd_dir_name(custom.deep_view()),
{
    match custom {
        Some(d) => d,
        None => String::from_str(".ramd"),
    }
}

/// Joins the user's home path and the application directory name.
pub fn root_dir_path(home: &str, dir: &str) -> (r: String)
    ensures
        r@ == spec_root_dir(home@, dir@),
{
    let mut s = String::from_str(home);
    s.append("/");
    s.append(dir);
    s
}

/// The `config` subdirectory of `root`.
pub fn config_dir_path(root: &str) -> (r: String)
    ensures
        r@ == config_dir_of(root@),
{
    let mut s = String::from_str(root);
    s.append("/config");
    s
}

/// The deterministic config-file location under `root`.
pub fn config_file_path(root: &str) -> (r: String)
    ensures
        r@ == config_file_of(root@),
{
    let mut s = String::from_str(root);
    s.append("/config");
    s.append("/ramd.toml");
    s
}

impl RamdConfig {
    /// The default configuration with its storage and tracing paths
    /// rooted under `root`.
    pub fn default_under(root: &str) -> (c: RamdConfig)
        ensures
            c@ == spec_default_under(root@),
    {
        let mut rocks = String::from_str(root);
        rocks.append("/db");
        let mut logs = String::from_str(root);
        logs.append("/logs");
        let c = RamdConfig {
            node: NodeConfig::default(),
            rocks: RocksConfig { path: rocks },
            json_rpc: JsonRpcServerConfig::default(),
            p2p: P2pConfig::default(),
            tracing: TracingConfig { path: logs },
        };
        proof {
            assert(c@ =~= spec_default_under(root@));
        }
        c
    }
}

/// The filesystem steps of first-run initialization, in order: the
/// home directory (idempotent create), the `config` subdirectory, the
/// storage directory and the tracing directory (each a strict create
/// that fails where the directory already exists), and the config
/// document written at its deterministic location.
pub struct InitPlan {
    /// The home directory, created with the idempotent primitive.
    pub root_dir: String,
    /// The `config` subdirectory, created with the strict primitive.
    pub config_dir: String,
    /// The storage directory, created with the strict primitive.
    pub rocks_dir: String,
    /// The tracing directory, created with the strict primitive.
    pub tracing_dir: String,
    /// Where the config document is written.
    pub config_file: String,
    /// The document text: the canonical encoding of `config`.
    pub contents: String,
    /// The configuration the plan persists and returns.
    pub config: RamdConfig,
}

/// What a well-formed first-run plan for the home directory `root`
/// holds.
pub open spec fn plan_ok(p: InitPlan, root: Seq<char>) -> bool {
    &&& p.root_dir@ == root
    &&& p.config_dir@ == config_dir_of(root)
    &&& p.rocks_dir@ == rocks_dir_of(root)
    &&& p.tracing_dir@ == tracing_dir_of(root)
    &&& p.config_file@ == config_file_of(root)
    &&& p.config@ == spec_default_under(root)
    &&& p.contents@ == encode_spec(p.config@)
}

/// Builds the first-run plan for the home path and directory name.
pub fn init_plan(home: &str, dir: &str) -> (p: InitPlan)
    ensures
        plan_ok(p, spec_root_dir(home@, dir@)),
{
    let root = root_dir_path(home, dir);
    let config = RamdConfig::default_under(root.as_str());
    let contents = encode_config(&config);
    let config_dir = config_dir_path(root.as_str());
    let config_file = config_file_path(root.as_str());
    let rocks_dir = config.rocks.path.clone();
    let tracing_dir = config.tracing.path.clone();
    InitPlan { root_dir: root, config_dir, rocks_dir, tracing_dir, config_file, contents, config }
}

/// How config acquisition ends: a valid document was found and is used
/// unchanged, or first-run initialization runs this plan.
pub enum Resolution {
    /// A valid document already exists; its value is returned as read.
    Existing(RamdConfig),
    /// No valid document exists; these steps synthesize and persist
    /// the default one.
    Initialize(InitPlan),
}

/// What a correct resolution holds, given the home directory and the
/// contents found at the deterministic config path (`None` where the
/// read failed).
pub open spec fn resolution_ok(root: Seq<char>, file: Option<Seq<char>>, r: Resolution) -> bool {
    match file {
        Some(t) => match decode_spec(t) {
            Some(c) => r matches Resolution::Existing(x) && x@ == c,
            None => r matches Resolution::Initialize(p) && plan_ok(p, root),
        },
        None => r matches Resolution::Initialize(p) && plan_ok(p, root),
    }
}

/// The decision of `read`: with the home variable, the directory-name
/// override and the contents read at the deterministic path handed in,
/// returns the configuration a valid document denotes, and otherwise
/// exactly the error the situation calls for.
pub fn read_outcome(home: Option<String>, file: Option<String>) -> (r: Result<
    RamdConfig,
    ConfigError,
>)
    ensures
        home is None ==> r == Err::<RamdConfig, ConfigError>(ConfigError::EnvironmentMissing),
        home is Some && file is None ==> r == Err::<RamdConfig, ConfigError>(
            ConfigError::ConfigNotFound,
        ),
        home is Some ==> (file matches Some(t) ==> match decode_spec(t@) {
            Some(c) => r matches Ok(cfg) && cfg@ == c,
            None => r == Err::<RamdConfig, ConfigError>(ConfigError::ConfigParseError),
        }),
{
    if home.is_none() {
        return Err(ConfigError::EnvironmentMissing);
    }
    match file {
        None => Err(ConfigError::ConfigNotFound),
        Some(text) => decode_config(text.as_str()),
    }
}

/// The decision of `init_or_read`: a valid document is used unchanged;
/// any failed read falls through to first-run initialization; a
/// missing home variable is fatal before any filesystem step.
///
/// A document that exists but does not parse falls through too: the
/// run then aborts at the strict creation of the already-present
/// `config` subdirectory, so the broken document is never
/// overwritten, though the surfaced error is `DirectoryCreateError`
/// rather than the parse error itself.
pub fn init_or_read_decision(
    home: Option<String>,
    custom_dir: Option<String>,
    file: Option<String>,
) -> (r: Result<Resolution, ConfigError>)
    ensures
        r is Err <==> home is None,
        home is None ==> r == Err::<Resolution, ConfigError>(ConfigError::EnvironmentMissing),
        home matches Some(h) ==> r matches Ok(res) && resolution_ok(
            spec_root_dir(h@, spec_ramd_dir_name(custom_dir.deep_view())),
            file.deep_view(),
            res,
        ),
{
    let h = match home {
        None => {
            return Err(ConfigError::EnvironmentMissing);
        },
        Some(h) => h,
    };
    let dir = ramd_dir_name(custom_dir);
    match file {
        Some(text) => match decode_config(text.as_str()) {
            Ok(cfg) => Ok(Resolution::Existing(cfg)),
            Err(_) => Ok(Resolution::Initialize(init_plan(h.as_str(), dir.as_str()))),
        },
        None => Ok(Resolution::Initialize(init_plan(h.as_str(), dir.as_str()))),
    }
}

/// A filesystem operation of first-run initialization.
pub enum FsOp {
    /// Create this directory and any missing ancestors; succeeds even
    /// where it already exists.
    CreateDirAll(String),
    /// Create exactly this one new directory; fails where it already
    /// exists.
    CreateDirStrict(String),
    /// Write a file at this path with these contents.
    WriteFile(String, String),
}

/// The stages of first-run initialization, in their fixed order.
#[derive(Clone, Copy, Debug, PartialEq, Eq, Structural)]
pub enum InitStage {
    /// Create the home directory, idempotently.
    Root,
    /// Create the `config` subdirectory, strictly.
    ConfigDir,
    /// Create the storage directory, strictly.
    RocksDir,
    /// Create the tracing directory, strictly.
    TracingDir,
    /// Write the config document.
    WriteConfig,
    /// Initialization is complete.
    Done,
}

/// The stage that follows `st` when its operation succeeds.
pub open spec fn spec_init_next(st: InitStage) -> InitStage {
    match st {
        InitStage::Root => InitStage::ConfigDir,
        InitStage::ConfigDir => InitStage::RocksDir,
        InitStage::RocksDir => InitStage::TracingDir,
        InitStage::TracingDir => InitStage::WriteConfig,
        InitStage::WriteConfig => InitStage::Done,
        InitStage::Done => InitStage::Done,
    }
}

/// The error that aborts initialization when the operation of `st`
/// fails.
pub open spec fn spec_init_err(st: InitStage) -> ConfigError {
    match st {
        InitStage::WriteConfig => ConfigError::PersistError,
        _ => ConfigError::DirectoryCreateError,
    }
}

/// The operation that stage `st` of the plan performs.
pub fn init_op(p: &InitPlan, st: InitStage) -> (op: Option<FsOp>)
    ensures
        match st {
            InitStage::Root => op matches Some(FsOp::CreateDirAll(d)) && d@ == p.root_dir@,
            InitStage::ConfigDir => op matches Some(FsOp::CreateDirStrict(d)) && d@
                == p.config_dir@,
            InitStage::RocksDir => op matches Some(FsOp::CreateDirStrict(d)) && d@ == p.rocks_dir@,
            InitStage::TracingDir => op matches Some(FsOp::CreateDirStrict(d)) && d@
                == p.tracing_dir@,
            InitStage::WriteConfig => op matches Some(FsOp::WriteFile(f, t)) && f@
                == p.config_file@ && t@ == p.contents@,
            InitStage::Done => op is None,
        },
{
    match st {
        InitStage::Root => Some(FsOp::CreateDirAll(p.root_dir.clone())),
        InitStage::ConfigDir => Some(FsOp::CreateDirStrict(p.config_dir.clone())),
        InitStage::RocksDir => Some(FsOp::CreateDirStrict(p.rocks_dir.clone())),
        InitStage::TracingDir => Some(FsOp::CreateDirStrict(p.tracing_dir.clone())),
        InitStage::WriteConfig => Some(
            FsOp::WriteFile(p.config_file.clone(), p.contents.clone()),
        ),
        InitStage::Done => None,
    }
}

/// Advances initialization by the reported outcome of the stage's
/// operation: success moves to the next stage; any failure aborts the
/// whole run with the stage's error, and no later operation follows.
pub fn init_advance(st: InitStage, ok: bool) -> (r: Result<InitStage, ConfigError>)
    ensures
        ok ==> r == Ok::<InitStage, ConfigError>(spec_init_next(st)),
        !ok ==> r == Err::<InitStage, ConfigError>(spec_init_err(st)),
{
    if ok {
        Ok(
            match st {
                InitStage::Root => InitStage::ConfigDir,
                InitStage::ConfigDir => InitStage::RocksDir,
                InitStage::RocksDir => InitStage::TracingDir,
                InitStage::TracingDir => InitStage::WriteConfig,
                InitStage::WriteConfig => InitStage::Done,
                InitStage::Done => InitStage::Done,
            },
        )
    } else {
        match st {
            InitStage::WriteConfig => Err(ConfigError::PersistError),
            _ => Err(ConfigError::DirectoryCreateError),
        }
    }
}

/// Idempotent read: against a home directory that already holds a
/// valid config document, every resolution returns that document's
/// configuration unchanged and performs no filesystem write, so two
/// resolutions in a row return equal values.
pub proof fn lemma_idempotent_read(root: Seq<char>, t: Seq<char>, r1: Resolution, r2: Resolution)
    requires
        decode_spec(t) is Some,
        resolution_ok(root, Some(t), r1),
        resolution_ok(root, Some(t), r2),
    ensures
        r1 matches Resolution::Existing(c1) && c1@ == decode_spec(t)->Some_0,
        r2 matches Resolution::Existing(c2) && c2@ == decode_spec(t)->Some_0,
        r1 matches Resolution::Existing(c1) && r2 matches Resolution::Existing(c2) ==> c1@ == c2@,
{
}

/// Default materialization: the first-run plan creates exactly the
/// home directory, the `config` subdirectory, the storage directory,
/// the tracing directory and the config document, and the storage and
/// tracing paths of the configuration it returns are rooted under the
/// home directory.
pub proof fn lemma_default_materialization(p: InitPlan, root: Seq<char>)
    requires
        plan_ok(p, root),
    ensures
        root.is_prefix_of(p.config_dir@),
        root.is_prefix_of(p.rocks_dir@),
        root.is_prefix_of(p.tracing_dir@),
        root.is_prefix_of(p.config_file@),
        p.config@.rocks_path == p.rocks_dir@,
        p.config@.tracing_path == p.tracing_dir@,
        p.contents@ == encode_spec(p.config@),
{
    assert(root =~= config_dir_of(root).subrange(0, root.len() as int));
    assert(root =~= rocks_dir_of(root).subrange(0, root.len() as int));
    assert(root =~= tracing_dir_of(root).subrange(0, root.len() as int));
    assert(root =~= config_file_of(root).subrange(0, root.len() as int));
}

/// The document a first-run plan persists always parses back to the
/// configuration the run returns: a later `read` of an initialized
/// home directory yields the same value.
pub proof fn lemma_persisted_document_parses_back(p: InitPlan, root: Seq<char>)
    requires
        plan_ok(p, root),
    ensures
        decode_spec(p.contents@) == Some(p.config@),
{
    lemma_round_trip(p.config@);
}

/// Collision on re-synthesis: the `config` subdirectory is created
/// with the strict primitive, so when that creation reports failure —
/// as it does where the directory already exists without a valid
/// config document — initialization aborts with
/// `DirectoryCreateError`.
pub proof fn lemma_collision_on_resynthesis()
    ensures
        spec_init_next(InitStage::Root) == InitStage::ConfigDir,
        spec_init_err(InitStage::ConfigDir) == ConfigError::DirectoryCreateError,
{
}

/// The directories that finalization ensures exist, in order: the
/// node root, the parent of the node config file (a file path, so
/// only its containing directory is a directory), the p2p config
/// directory, and the storage and tracing directories themselves.
/// Each is created with the idempotent primitive, so finalization is
/// safe to run unconditionally on any resolved configuration.
pub fn finalize_dir_targets(c: &RamdConfig) -> (v: Vec<String>)
    ensures
        v@.len() == 5,
        v@[0]@ == c.node.root_path@,
        v@[1]@ == parent_prefix(c.node.config_path@),
        v@[2]@ == c.p2p.config_path@,
        v@[3]@ == c.rocks.path@,
        v@[4]@ == c.tracing.path@,
{
    let mut v: Vec<String> = Vec::new();
    v.push(c.node.root_path.clone());
    v.push(popped_path(c.node.config_path.as_str()));
    v.push(c.p2p.config_path.clone());
    v.push(c.rocks.path.clone());
    v.push(c.tracing.path.clone());
    v
}

} // verus!
