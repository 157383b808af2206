use ramd_config::codec::{decode_config, encode_config};
use ramd_config::config::{
    JsonRpcServerConfig, NodeConfig, P2pConfig, RamdConfig, RocksConfig, TracingConfig,
};
use ramd_config::errors::ConfigError;
use ramd_config::orchestrator::{advance, next_action, StartupAction, StartupPhase};
use ramd_config::paths::popped_path;
use ramd_config::resolver::{
    config_file_path, finalize_dir_targets, init_advance, init_op, init_or_read_decision,
    init_plan, ramd_dir_name, read_outcome, root_dir_path, FsOp, InitStage, Resolution,
};

fn sample_config() -> RamdConfig {
    RamdConfig {
        node: NodeConfig {
            root_path: "/home/u/.ramd".to_string(),
            config_path: "/home/u/.ramd/config/ramd.toml".to_string(),
        },
        rocks: RocksConfig { path: "/home/u/.ramd/db".to_string() },
        json_rpc: JsonRpcServerConfig { address: "0.0.0.0:9000".to_string() },
        p2p: P2pConfig { config_path: "/home/u/.ramd/p2p".to_string() },
        tracing: TracingConfig { path: "/home/u/.ramd/logs".to_string() },
    }
}

#[test]
fn encode_default_is_canonical_text() {
    let text = encode_config(&RamdConfig::default());
    let expected = "[node]\nroot_path = \".ramd\"\nconfig_path = \".ramd/config/ramd.toml\"\n[rocks]\npath = \"db\"\n[json_rpc]\naddress = \"127.0.0.1:8545\"\n[p2p]\nconfig_path = \".ramd/p2p\"\n[tracing]\npath = \"logs\"\n";
    assert_eq!(text.as_str(), expected);
}

#[test]
fn round_trip_default() {
    let original = RamdConfig::default();
    let text = encode_config(&original);
    let decoded = decode_config(text.as_str()).unwrap();
    assert!(decoded == original);
}

#[test]
fn round_trip_fully_populated() {
    let original = sample_config();
    let text = encode_config(&original);
    let decoded = decode_config(text.as_str()).unwrap();
    assert!(decoded == original);
}

#[test]
fn round_trip_with_quotes_and_backslashes() {
    let mut original = sample_config();
    original.node.root_path = "C:\\ramd \"home\"".to_string();
    original.json_rpc.address = "a\"b\\c".to_string();
    let text = encode_config(&original);
    let decoded = decode_config(text.as_str()).unwrap();
    assert!(decoded == original);
}

#[test]
fn encode_escapes_quotes_and_backslashes() {
    let mut c = RamdConfig::default();
    c.rocks.path = "a\"b\\c".to_string();
    let text = encode_config(&c);
    assert!(text.contains("path = \"a\\\"b\\\\c\"\n"));
}

#[test]
fn decode_undoes_the_escapes() {
    let decoded = decode_config("[rocks]\npath = \"a\\\"b\\\\c\"\n").unwrap();
    assert_eq!(decoded.rocks.path.as_str(), "a\"b\\c");
}

#[test]
fn decode_dangling_escape_is_parse_error() {
    let r = decode_config("[rocks]\npath = \"abc\\");
    assert!(matches!(r, Err(ConfigError::ConfigParseError)));
}

#[test]
fn decode_empty_document_is_all_defaults() {
    let decoded = decode_config("").unwrap();
    assert!(decoded == RamdConfig::default());
}

#[test]
fn decode_partial_document_fills_defaults() {
    let decoded = decode_config("[node]\nroot_path = \"/data/node\"\n").unwrap();
    assert_eq!(decoded.node.root_path.as_str(), "/data/node");
    assert_eq!(decoded.node.config_path.as_str(), ".ramd/config/ramd.toml");
    assert_eq!(decoded.rocks.path.as_str(), "db");
    assert_eq!(decoded.json_rpc.address.as_str(), "127.0.0.1:8545");
    assert_eq!(decoded.p2p.config_path.as_str(), ".ramd/p2p");
    assert_eq!(decoded.tracing.path.as_str(), "logs");
}

#[test]
fn decode_unterminated_value_is_parse_error() {
    let r = decode_config("[node]\nroot_path = \"unterminated");
    assert!(matches!(r, Err(ConfigError::ConfigParseError)));
}

#[test]
fn decode_trailing_garbage_is_parse_error() {
    let r = decode_config("[node]\nroot_path = \"/x\"\nwhat is this");
    assert!(matches!(r, Err(ConfigError::ConfigParseError)));
}

#[test]
fn ramd_dir_name_prefers_override() {
    assert_eq!(ramd_dir_name(Some(".custom".to_string())).as_str(), ".custom");
    assert_eq!(ramd_dir_name(None).as_str(), ".ramd");
}

#[test]
fn config_path_is_deterministic() {
    let root = root_dir_path("/home/u", ".ramd");
    assert_eq!(root.as_str(), "/home/u/.ramd");
    assert_eq!(config_file_path(root.as_str()).as_str(), "/home/u/.ramd/config/ramd.toml");
}

#[test]
fn read_missing_environment_is_fatal() {
    let r = read_outcome(None, Some("[node]\n".to_string()));
    assert!(matches!(r, Err(ConfigError::EnvironmentMissing)));
    let r = init_or_read_decision(None, None, None);
    assert!(matches!(r, Err(ConfigError::EnvironmentMissing)));
}

#[test]
fn read_missing_file_is_not_found() {
    let r = read_outcome(Some("/home/u".to_string()), None);
    assert!(matches!(r, Err(ConfigError::ConfigNotFound)));
}

#[test]
fn read_bad_document_is_parse_error() {
    let r = read_outcome(Some("/home/u".to_string()), Some("[node]\nroot_path = \"x".to_string()));
    assert!(matches!(r, Err(ConfigError::ConfigParseError)));
}

#[test]
fn idempotent_read_returns_equal_values() {
    let on_disk = encode_config(&sample_config());
    let first = init_or_read_decision(
        Some("/home/u".to_string()),
        None,
        Some(on_disk.clone()),
    )
    .unwrap();
    let second = init_or_read_decision(
        Some("/home/u".to_string()),
        None,
        Some(on_disk),
    )
    .unwrap();
    match (first, second) {
        (Resolution::Existing(a), Resolution::Existing(b)) => {
            assert!(a == b);
            assert!(a == sample_config());
        },
        _ => panic!("a valid document must be used unchanged, with no writes"),
    }
}

#[test]
fn default_materialization_plan() {
    let r = init_or_read_decision(Some("/home/u".to_string()), None, None).unwrap();
    let plan = match r {
        Resolution::Initialize(p) => p,
        Resolution::Existing(_) => panic!("nothing to read: first-run init must follow"),
    };
    assert_eq!(plan.root_dir.as_str(), "/home/u/.ramd");
    assert_eq!(plan.config_dir.as_str(), "/home/u/.ramd/config");
    assert_eq!(plan.rocks_dir.as_str(), "/home/u/.ramd/db");
    assert_eq!(plan.tracing_dir.as_str(), "/home/u/.ramd/logs");
    assert_eq!(plan.config_file.as_str(), "/home/u/.ramd/config/ramd.toml");
    assert_eq!(plan.config.rocks.path.as_str(), "/home/u/.ramd/db");
    assert_eq!(plan.config.tracing.path.as_str(), "/home/u/.ramd/logs");
    assert!(plan.config.rocks.path.starts_with(plan.root_dir.as_str()));
    assert!(plan.config.tracing.path.starts_with(plan.root_dir.as_str()));
    assert_eq!(plan.contents, encode_config(&plan.config));
}

#[test]
fn parse_error_falls_through_to_initialization() {
    let r = init_or_read_decision(
        Some("/home/u".to_string()),
        None,
        Some("[rocks]\npath = \"broken".to_string()),
    )
    .unwrap();
    assert!(matches!(r, Resolution::Initialize(_)));
}

#[test]
fn custom_dir_name_moves_the_root() {
    let r = init_or_read_decision(
        Some("/home/u".to_string()),
        Some(".elsewhere".to_string()),
        None,
    )
    .unwrap();
    match r {
        Resolution::Initialize(p) => {
            assert_eq!(p.root_dir.as_str(), "/home/u/.elsewhere");
        },
        Resolution::Existing(_) => panic!("nothing to read: first-run init must follow"),
    }
}

#[test]
fn init_plan_walk_emits_the_five_operations() {
    let plan = init_plan("/home/u", ".ramd");
    let mut stage = InitStage::Root;
    let mut ops: Vec<FsOp> = Vec::new();
    while let Some(op) = init_op(&plan, stage) {
        ops.push(op);
        stage = init_advance(stage, true).unwrap();
    }
    assert!(matches!(stage, InitStage::Done));
    assert_eq!(ops.len(), 5);
    match &ops[0] {
        FsOp::CreateDirAll(d) => assert_eq!(d.as_str(), "/home/u/.ramd"),
        _ => panic!("the home directory is created idempotently"),
    }
    match &ops[1] {
        FsOp::CreateDirStrict(d) => assert_eq!(d.as_str(), "/home/u/.ramd/config"),
        _ => panic!("the config subdirectory is created strictly"),
    }
    match &ops[2] {
        FsOp::CreateDirStrict(d) => assert_eq!(d.as_str(), "/home/u/.ramd/db"),
        _ => panic!("the storage directory is created strictly"),
    }
    match &ops[3] {
        FsOp::CreateDirStrict(d) => assert_eq!(d.as_str(), "/home/u/.ramd/logs"),
        _ => panic!("the tracing directory is created strictly"),
    }
    match &ops[4] {
        FsOp::WriteFile(f, t) => {
            assert_eq!(f.as_str(), "/home/u/.ramd/config/ramd.toml");
            assert_eq!(t, &encode_config(&plan.config));
        },
        _ => panic!("the document is written last"),
    }
}

#[test]
fn collision_on_resynthesis_aborts() {
    let plan = init_plan("/home/u", ".ramd");
    assert!(matches!(init_op(&plan, InitStage::ConfigDir), Some(FsOp::CreateDirStrict(_))));
    let r = init_advance(InitStage::ConfigDir, false);
    assert!(matches!(r, Err(ConfigError::DirectoryCreateError)));
}

#[test]
fn failed_write_is_persist_error() {
    let r = init_advance(InitStage::WriteConfig, false);
    assert!(matches!(r, Err(ConfigError::PersistError)));
}

#[test]
fn popped_path_strips_the_final_segment() {
    assert_eq!(popped_path("/home/u/.app/db/data").as_str(), "/home/u/.app/db/");
    assert_eq!(popped_path("no_separator").as_str(), "");
    assert_eq!(popped_path("a/b/").as_str(), "a/b/");
    assert_eq!(popped_path("").as_str(), "");
}

#[test]
fn finalize_targets_in_order() {
    let c = sample_config();
    let targets = finalize_dir_targets(&c);
    assert_eq!(targets.len(), 5);
    assert_eq!(targets[0].as_str(), "/home/u/.ramd");
    assert_eq!(targets[1].as_str(), "/home/u/.ramd/config/");
    assert_eq!(targets[2].as_str(), "/home/u/.ramd/p2p");
    assert_eq!(targets[3].as_str(), "/home/u/.ramd/db");
    assert_eq!(targets[4].as_str(), "/home/u/.ramd/logs");
}

#[test]
fn startup_order_is_fixed() {
    let mut phase = StartupPhase::Boot;
    let mut actions: Vec<StartupAction> = Vec::new();
    while let Some(a) = next_action(phase) {
        actions.push(a);
        phase = advance(phase, true);
    }
    assert_eq!(
        actions,
        vec![
            StartupAction::ResolveConfig,
            StartupAction::InitTracing,
            StartupAction::BuildStorage,
            StartupAction::BuildNode,
            StartupAction::LaunchRpc,
            StartupAction::SpawnWatcher,
            StartupAction::Park,
        ]
    );
    assert!(phase == StartupPhase::Parked);
}

#[test]
fn startup_failure_aborts_the_sequence() {
    let mut phase = StartupPhase::Boot;
    phase = advance(phase, true);
    assert!(next_action(phase) == Some(StartupAction::InitTracing));
    phase = advance(phase, false);
    assert!(phase == StartupPhase::Failed);
    assert!(next_action(phase) == None);
}
