//! The adaptive poller framework, instantiated six times.
//!
//! Each cycle a poller emits its refresh request, reads the focus state,
//! and then either retries (focus not yet published), stops (shutting
//! down), or builds its records from the snapshot and sleeps its fast or
//! slow interval. Everything the runtime must decide in that cycle is
//! computed here; the runtime only performs the sends and the sleeps.
use vstd::prelude::*;

use crate::models::Cpus;
use crate::models::Data;
use crate::models::Meta;
use crate::models::Sockets;
use crate::snapshot::Snapshot;
use crate::state::AppState;
use crate::state::Kind;
use crate::DISK_DURATION;
use crate::LDISK_DURATION;
use crate::LMEM_DURATION;
use crate::LNET_DURATION;
use crate::LPROC_DURATION;
use crate::LSOCKET_DURATION;
use crate::MEM_DURATION;
use crate::NET_DURATION;
use crate::PROC_DURATION;
use crate::SOCKET_DURATION;

verus! {

/// What one poller holds: the focus category (or two, for the combined
/// meta/cpu poller) that earns its fast cadence, the two intervals, and the
/// refresh kind it asks the broker for each cycle (none for the sockets
/// poller, which queries the OS directly).
#[derive(Debug, Clone, Copy, PartialEq, Eq)]
pub struct PollerConfig {
    pub category: AppState,
    pub alt_category: Option<AppState>,
    pub fast_ms: u64,
    pub slow_ms: u64,
    pub refresh_kind: Option<Kind>,
}

/// A well-formed poller: its categories are real metric categories, its
/// retry backoff is a real pause, its slow interval is no faster than its
/// fast one, and it only ever requests substructure refreshes.
pub open spec fn wf_config(cfg: PollerConfig) -> bool {
    &&& cfg.category != AppState::ShuttingDown
    &&& (cfg.alt_category matches Some(a) ==> a != AppState::ShuttingDown)
    &&& 0 < cfg.fast_ms <= cfg.slow_ms
    &&& (cfg.refresh_kind matches Some(k) ==> k != Kind::Init && k != Kind::ShuttingDown)
}

/// Whether the focus is one of this poller's own categories.
pub open spec fn own_category(cfg: PollerConfig, focus: AppState) -> bool {
    focus == cfg.category || cfg.alt_category == Some(focus)
}

/// The interval the poller sleeps after a cycle under `focus`: fast for its
/// own category, slow for every other.
pub open spec fn interval_spec(cfg: PollerConfig, focus: AppState) -> u64 {
    if own_category(cfg, focus) {
        cfg.fast_ms
    } else {
        cfg.slow_ms
    }
}

/// The decision taken at the head of one poll cycle.
#[derive(Debug, Clone, Copy, PartialEq, Eq, Structural)]
pub enum CycleStep {
    /// The focus state is not yet published: sleep the backoff and retry,
    /// emitting nothing.
    Retry { sleep_ms: u64 },
    /// The focus reads `ShuttingDown`: emit nothing and end the loop.
    Stop,
    /// Build and send this cycle's records, then sleep the given interval.
    Emit { sleep_ms: u64 },
}

/// The cycle decision as a function of the focus observation: retry on a
/// fixed backoff while the focus is unavailable, stop on `ShuttingDown`,
/// otherwise emit and sleep the adaptive interval.
pub open spec fn cycle_spec(cfg: PollerConfig, focus: Option<AppState>) -> CycleStep {
    match focus {
        None => CycleStep::Retry { sleep_ms: cfg.fast_ms },
        Some(f) => if f == AppState::ShuttingDown {
            CycleStep::Stop
        } else {
            CycleStep::Emit { sleep_ms: interval_spec(cfg, f) }
        },
    }
}

/// Decide one poll cycle from the focus observation (`None` while the
/// shared focus cell is not yet published).
pub fn plan_cycle(cfg: &PollerConfig, focus: Option<AppState>) -> (step: CycleStep)
    ensures
        step == cycle_spec(*cfg, focus),
{
    match focus {
        None => CycleStep::Retry { sleep_ms: cfg.fast_ms },
        Some(f) => {
            if f == AppState::ShuttingDown {
                CycleStep::Stop
            } else if f == cfg.category {
                CycleStep::Emit { sleep_ms: cfg.fast_ms }
            } else {
                match cfg.alt_category {
                    Some(a) => {
                        if a == f {
                            CycleStep::Emit { sleep_ms: cfg.fast_ms }
                        } else {
                            CycleStep::Emit { sleep_ms: cfg.slow_ms }
                        }
                    },
                    None => CycleStep::Emit { sleep_ms: cfg.slow_ms },
                }
            }
        },
    }
}

/// While the focus state is unavailable a poller backs off by its fixed,
/// non-zero fast interval — the same pause every cycle — rather than
/// spinning, and emits nothing.
pub proof fn lemma_unavailable_backoff(cfg: PollerConfig)
    requires
        wf_config(cfg),
    ensures
        cycle_spec(cfg, None) == (CycleStep::Retry { sleep_ms: cfg.fast_ms }),
        cfg.fast_ms > 0,
{
}

/// The adaptive cadence: under any live focus the cycle emits, and it
/// selects the fast interval iff the focus is the poller's own category,
/// the slow interval otherwise.
pub proof fn lemma_adaptive_cadence(cfg: PollerConfig, focus: AppState)
    requires
        focus != AppState::ShuttingDown,
    ensures
        cycle_spec(cfg, Some(focus)) == (CycleStep::Emit { sleep_ms: interval_spec(cfg, focus) }),
        own_category(cfg, focus) ==> interval_spec(cfg, focus) == cfg.fast_ms,
        !own_category(cfg, focus) ==> interval_spec(cfg, focus) == cfg.slow_ms,
{
}

/// A poller stops exactly when it observes `ShuttingDown`, and every
/// emitting cycle happened under a live focus: once `ShuttingDown` is
/// observed, the plan is `Stop` and no further records are issued.
pub proof fn lemma_shutdown_halts(cfg: PollerConfig, focus: Option<AppState>)
    ensures
        cycle_spec(cfg, focus) is Stop <==> focus == Some(AppState::ShuttingDown),
        cycle_spec(cfg, focus) is Emit ==> (focus matches Some(f) && f != AppState::ShuttingDown),
{
}

/// The aggregate summary derived from a snapshot: memory totals from the
/// memory substructure, identity strings from the host block, core and
/// process counts from their lists, and the global CPU reading.
pub open spec fn is_meta_of(m: Meta, s: Snapshot) -> bool {
    &&& m.t_mem == s.memory.t_ram
    &&& m.t_swap == s.memory.t_swap
    &&& m.name == s.host.name
    &&& m.kernel == s.host.kernel
    &&& m.os == s.host.os
    &&& m.host_name == s.host.host_name
    &&& m.n_cpu == s.cpu.cores@.len()
    &&& m.n_proc == s.processes@.len()
    &&& m.glob_cpu == s.cpu.global_usage
}

/// Build the aggregate summary record from the snapshot.
pub fn build_meta(s: &Snapshot) -> (m: Meta)
    ensures
        is_meta_of(m, *s),
{
    Meta {
        t_mem: s.memory.t_ram,
        t_swap: s.memory.t_swap,
        name: s.host.name.clone(),
        kernel: s.host.kernel.clone(),
        os: s.host.os.clone(),
        host_name: s.host.host_name.clone(),
        n_cpu: s.cpu.cores.len(),
        n_proc: s.processes.len(),
        glob_cpu: s.cpu.global_usage,
    }
}

/// One meta/cpu cycle emits exactly two records in order: the aggregate
/// summary first, then the per-core list.
pub open spec fn emits_meta_cpu(records: Seq<Data>, s: Snapshot) -> bool {
    &&& records.len() == 2
    &&& records[0] matches Data::Meta(m) && is_meta_of(m, s)
    &&& records[1] matches Data::Cpus(cs) && cs@ == s.cpu.cores@
}

/// One disk cycle emits exactly the per-disk list.
pub open spec fn emits_disk(records: Seq<Data>, s: Snapshot) -> bool {
    records.len() == 1 && (records[0] matches Data::Disk(v) && v@ == s.disks@)
}

/// One memory cycle emits exactly the memory record.
pub open spec fn emits_memory(records: Seq<Data>, s: Snapshot) -> bool {
    records.len() == 1 && records[0] == Data::Memory(s.memory)
}

/// One network cycle emits exactly the per-interface list.
pub open spec fn emits_network(records: Seq<Data>, s: Snapshot) -> bool {
    records.len() == 1 && (records[0] matches Data::Networks(v) && v@ == s.networks@)
}

/// One process cycle emits exactly the per-process list.
pub open spec fn emits_process(records: Seq<Data>, s: Snapshot) -> bool {
    records.len() == 1 && (records[0] matches Data::Process(v) && v@ == s.processes@)
}

/// Build the meta/cpu cycle's records: the summary before the per-core
/// list.
pub fn meta_cpu_records(s: &Snapshot) -> (records: Vec<Data>)
    ensures
        emits_meta_cpu(records@, *s),
{
    let m = build_meta(s);
    let cores = s.cpu.cores.clone();
    proof {
        assert(cores@ =~= s.cpu.cores@);
    }
    let mut records: Vec<Data> = Vec::new();
    records.push(Data::Meta(m));
    records.push(Data::Cpus(cores));
    records
}

/// Build the disk cycle's record from the snapshot.
pub fn disk_records(s: &Snapshot) -> (records: Vec<Data>)
    ensures
        emits_disk(records@, *s),
{
    let disks = s.disks.clone();
    proof {
        assert(disks@ =~= s.disks@);
    }
    let mut records: Vec<Data> = Vec::new();
    records.push(Data::Disk(disks));
    records
}

/// Build the memory cycle's record from the snapshot.
pub fn memory_records(s: &Snapshot) -> (records: Vec<Data>)
    ensures
        emits_memory(records@, *s),
{
    let mut records: Vec<Data> = Vec::new();
    records.push(Data::Memory(s.memory));
    records
}

/// Build the network cycle's record from the snapshot.
pub fn network_records(s: &Snapshot) -> (records: Vec<Data>)
    ensures
        emits_network(records@, *s),
{
    let nets = s.networks.clone();
    proof {
        assert(nets@ =~= s.networks@);
    }
    let mut records: Vec<Data> = Vec::new();
    records.push(Data::Networks(nets));
    records
}

/// Build the process cycle's record from the snapshot.
pub fn process_records(s: &Snapshot) -> (records: Vec<Data>)
    ensures
        emits_process(records@, *s),
{
    let procs = s.processes.clone();
    proof {
        assert(procs@ =~= s.processes@);
    }
    let mut records: Vec<Data> = Vec::new();
    records.push(Data::Process(procs));
    records
}

/// Wrap the socket list read from the OS connection table as this cycle's
/// record. The sockets poller has no snapshot dependency: the runtime
/// queries the table and hands the list in.
pub fn sockets_record(list: Vec<Sockets>) -> (d: Data)
    ensures
        d == Data::Sockets(list),
{
    Data::Sockets(list)
}

/// The combined meta/cpu poller: fast under either `Meta` or `Cpu` focus,
/// slow at twice that pace otherwise, asking for the cheap cpu-only
/// refresh each cycle. The fast interval is the sampler's minimum CPU
/// update interval, supplied by the runtime.
pub fn meta_cpu_poller(fast_ms: u64) -> (cfg: PollerConfig)
    requires
        0 < fast_ms <= u64::MAX / 2,
    ensures
        cfg == (PollerConfig {
            category: AppState::Cpu,
            alt_category: Some(AppState::Meta),
            fast_ms,
            slow_ms: (2 * fast_ms) as u64,
            refresh_kind: Some(Kind::Cpu),
        }),
        wf_config(cfg),
{
    PollerConfig {
        category: AppState::Cpu,
        alt_category: Some(AppState::Meta),
        fast_ms,
        slow_ms: 2 * fast_ms,
        refresh_kind: Some(Kind::Cpu),
    }
}

/// The disk poller: its own refresh kind, its own pair of intervals.
pub fn disk_poller() -> (cfg: PollerConfig)
    ensures
        cfg == (PollerConfig {
            category: AppState::Disk,
            alt_category: None,
            fast_ms: DISK_DURATION,
            slow_ms: LDISK_DURATION,
            refresh_kind: Some(Kind::Disk),
        }),
        wf_config(cfg),
{
    PollerConfig {
        category: AppState::Disk,
        alt_category: None,
        fast_ms: DISK_DURATION,
        slow_ms: LDISK_DURATION,
        refresh_kind: Some(Kind::Disk),
    }
}

/// The memory poller requests the memory refresh kind: its records are
/// built from the memory substructure alone.
pub fn memory_poller() -> (cfg: PollerConfig)
    ensures
        cfg == (PollerConfig {
            category: AppState::Memory,
            alt_category: None,
            fast_ms: MEM_DURATION,
            slow_ms: LMEM_DURATION,
            refresh_kind: Some(Kind::Memory),
        }),
        wf_config(cfg),
{
    PollerConfig {
        category: AppState::Memory,
        alt_category: None,
        fast_ms: MEM_DURATION,
        slow_ms: LMEM_DURATION,
        refresh_kind: Some(Kind::Memory),
    }
}

/// The network poller: its own refresh kind, its own pair of intervals.
pub fn network_poller() -> (cfg: PollerConfig)
    ensures
        cfg == (PollerConfig {
            category: AppState::Network,
            alt_category: None,
            fast_ms: NET_DURATION,
            slow_ms: LNET_DURATION,
            refresh_kind: Some(Kind::Net),
        }),
        wf_config(cfg),
{
    PollerConfig {
        category: AppState::Network,
        alt_category: None,
        fast_ms: NET_DURATION,
        slow_ms: LNET_DURATION,
        refresh_kind: Some(Kind::Net),
    }
}

/// The process poller: its own refresh kind, its own pair of intervals.
pub fn process_poller() -> (cfg: PollerConfig)
    ensures
        cfg == (PollerConfig {
            category: AppState::Processes,
            alt_category: None,
            fast_ms: PROC_DURATION,
            slow_ms: LPROC_DURATION,
            refresh_kind: Some(Kind::Proc),
        }),
        wf_config(cfg),
{
    PollerConfig {
        category: AppState::Processes,
        alt_category: None,
        fast_ms: PROC_DURATION,
        slow_ms: LPROC_DURATION,
        refresh_kind: Some(Kind::Proc),
    }
}

/// The sockets poller queries the OS connection table directly each cycle:
/// it needs no broker refresh, but still obeys the focus cadence and the
/// shutdown rule.
pub fn sockets_poller() -> (cfg: PollerConfig)
    ensures
        cfg == (PollerConfig {
            category: AppState::Sockets,
            alt_category: None,
            fast_ms: SOCKET_DURATION,
            slow_ms: LSOCKET_DURATION,
            refresh_kind: None,
        }),
        wf_config(cfg),
{
    PollerConfig {
        category: AppState::Sockets,
        alt_category: None,
        fast_ms: SOCKET_DURATION,
        slow_ms: LSOCKET_DURATION,
        refresh_kind: None,
    }
}

} // verus!
