use vstd::prelude::*;

verus! {

// The startup orchestrator sequences subsystem construction in a
// fixed, non-reorderable order with a fixed failure policy: any step
// failing aborts the whole startup, and no partial-service mode
// exists. The machine here decides each next step; the process
// boundary performs it and reports whether it succeeded.

/// One step of node startup, in the order the sequence fixes.
#[derive(Clone, Copy, Debug, PartialEq, Eq, Structural)]
pub enum StartupAction {
    /// Resolve the configuration and finalize its directories.
    ResolveConfig,
    /// Initialize the logging backend from the tracing section.
    InitTracing,
    /// Construct the storage handle from the storage section.
    BuildStorage,
    /// Construct the node from the node section and the shared
    /// storage handle.
    BuildNode,
    /// Launch the RPC server from the RPC section and the shared node
    /// handle.
    LaunchRpc,
    /// Spawn the unsupervised task that awaits the RPC server handle.
    SpawnWatcher,
    /// Block the main execution context indefinitely.
    Park,
}

/// How far startup has come.
#[derive(Clone, Copy, Debug, PartialEq, Eq, Structural)]
pub enum StartupPhase {
    /// Nothing has run yet.
    Boot,
    /// The configuration is resolved.
    Configured,
    /// The logging backend is initialized.
    TracingUp,
    /// The storage handle exists.
    StorageUp,
    /// The node exists.
    NodeUp,
    /// The RPC server is launched.
    RpcUp,
    /// The watcher task is spawned.
    Watching,
    /// The main context is parked; only external termination ends the
    /// process.
    Parked,
    /// A step failed; startup is aborted with no partial-service mode.
    Failed,
}

/// The complete startup sequence.
pub open spec fn startup_sequence() -> Seq<StartupAction> {
    seq![
        StartupAction::ResolveConfig,
        StartupAction::InitTracing,
        StartupAction::BuildStorage,
        StartupAction::BuildNode,
        StartupAction::LaunchRpc,
        StartupAction::SpawnWatcher,
        StartupAction::Park,
    ]
}

/// How many steps of the sequence a phase has completed.
pub open spec fn phase_index(p: StartupPhase) -> int {
    match p {
        StartupPhase::Boot => 0,
        StartupPhase::Configured => 1,
        StartupPhase::TracingUp => 2,
        StartupPhase::StorageUp => 3,
        StartupPhase::NodeUp => 4,
        StartupPhase::RpcUp => 5,
        StartupPhase::Watching => 6,
        StartupPhase::Parked => 7,
        StartupPhase::Failed => 7,
    }
}

/// The action a phase performs next; none once parked or failed.
pub open spec fn spec_next_action(p: StartupPhase) -> Option<StartupAction> {
    match p {
        StartupPhase::Boot => Some(StartupAction::ResolveConfig),
        StartupPhase::Configured => Some(StartupAction::InitTracing),
        StartupPhase::TracingUp => Some(StartupAction::BuildStorage),
        StartupPhase::StorageUp => Some(StartupAction::BuildNode),
        StartupPhase::NodeUp => Some(StartupAction::LaunchRpc),
        StartupPhase::RpcUp => Some(StartupAction::SpawnWatcher),
        StartupPhase::Watching => Some(StartupAction::Park),
        StartupPhase::Parked => None,
        StartupPhase::Failed => None,
    }
}

/// The phase after the pending action reports its outcome: success
/// moves one step forward; any failure aborts startup for good.
pub open spec fn spec_advance(p: StartupPhase, ok: bool) -> StartupPhase {
    if !ok {
        StartupPhase::Failed
    } else {
        match p {
            StartupPhase::Boot => StartupPhase::Configured,
            StartupPhase::Configured => StartupPhase::TracingUp,
            StartupPhase::TracingUp => StartupPhase::StorageUp,
            StartupPhase::StorageUp => StartupPhase::NodeUp,
            StartupPhase::NodeUp => StartupPhase::RpcUp,
            StartupPhase::RpcUp => StartupPhase::Watching,
            StartupPhase::Watching => StartupPhase::Parked,
            StartupPhase::Parked => StartupPhase::Parked,
            StartupPhase::Failed => StartupPhase::Failed,
        }
    }
}

/// The action to perform in phase `p`, or nothing once the process is
/// parked or startup has aborted.
pub fn next_action(p: StartupPhase) -> (a: Option<StartupAction>)
    ensures
        a == spec_next_action(p),
{
    match p {
        StartupPhase::Boot => Some(StartupAction::ResolveConfig),
        StartupPhase::Configured => Some(StartupAction::InitTracing),
        StartupPhase::TracingUp => Some(StartupAction::BuildStorage),
        StartupPhase::StorageUp => Some(StartupAction::BuildNode),
        StartupPhase::NodeUp => Some(StartupAction::LaunchRpc),
        StartupPhase::RpcUp => Some(StartupAction::SpawnWatcher),
        StartupPhase::Watching => Some(StartupAction::Park),
        StartupPhase::Parked => None,
        StartupPhase::Failed => None,
    }
}

/// Advances the phase by the reported outcome of its action.
pub fn advance(p: StartupPhase, ok: bool) -> (q: StartupPhase)
    ensures
        q == spec_advance(p, ok),
{
    if !ok {
        StartupPhase::Failed
    } else {
        match p {
            StartupPhase::Boot => StartupPhase::Configured,
            StartupPhase::Configured => StartupPhase::TracingUp,
            StartupPhase::TracingUp => StartupPhase::StorageUp,
            StartupPhase::StorageUp => StartupPhase::NodeUp,
            StartupPhase::NodeUp => StartupPhase::RpcUp,
            StartupPhase::RpcUp => StartupPhase::Watching,
            StartupPhase::Watching => StartupPhase::Parked,
            StartupPhase::Parked => StartupPhase::Parked,
            StartupPhase::Failed => StartupPhase::Failed,
        }
    }
}

/// The actions the machine emits from phase `p` over `n` successful
/// steps.
pub open spec fn ok_run(p: StartupPhase, n: nat) -> Seq<StartupAction>
    decreases n,
{
    if n == 0 {
        Seq::empty()
    } else {
        match spec_next_action(p) {
            None => Seq::empty(),
            Some(a) => seq![a] + ok_run(spec_advance(p, true), (n - 1) as nat),
        }
    }
}

proof fn lemma_ok_run_from(p: StartupPhase, n: nat)
    requires
        p != StartupPhase::Failed,
    ensures
        ok_run(p, n) == startup_sequence().skip(phase_index(p)).take(
            if n <= 7 - phase_index(p) {
                n as int
            } else {
                7 - phase_index(p)
            },
        ),
    decreases n,
{
    let s = startup_sequence();
    let i = phase_index(p);
    let m = if n <= 7 - i {
        n as int
    } else {
        7 - i
    };
    if n == 0 {
        assert(ok_run(p, n) =~= s.skip(i).take(m));
    } else if p is Parked {
        assert(ok_run(p, n) =~= s.skip(i).take(m));
    } else {
        let p2 = spec_advance(p, true);
        lemma_ok_run_from(p2, (n - 1) as nat);
        assert(ok_run(p, n) =~= s.skip(i).take(m));
    }
}

/// Startup order: the actions of any run that proceeds without
/// failure are, in their order, a prefix of the fixed startup
/// sequence. In particular the storage handle is always constructed
/// before the node, and the node before the RPC server is launched.
pub proof fn lemma_startup_order(n: nat)
    ensures
        ok_run(StartupPhase::Boot, n).is_prefix_of(startup_sequence()),
        forall|i: int| 0 <= i < ok_run(StartupPhase::Boot, n).len() ==> ok_run(
            StartupPhase::Boot,
            n,
        )[i] == startup_sequence()[i],
        startup_sequence()[2] == StartupAction::BuildStorage,
        startup_sequence()[3] == StartupAction::BuildNode,
        startup_sequence()[4] == StartupAction::LaunchRpc,
{
    lemma_ok_run_from(StartupPhase::Boot, n);
}

/// Fixed failure policy: a failing step aborts startup, and after the
/// abort no further action is emitted.
pub proof fn lemma_failure_halts(p: StartupPhase)
    ensures
        spec_advance(p, false) == StartupPhase::Failed,
        spec_next_action(StartupPhase::Failed) is None,
{
}

} // verus!
