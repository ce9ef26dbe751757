//! The refresh broker's snapshot store.
//!
//! The snapshot is the in-memory cache of live OS metrics. The broker is its
//! sole writer: it publishes the store once on the first `Init` request and
//! thereafter refreshes exactly one substructure per request, leaving every
//! other substructure untouched. The runtime queries the OS and hands the
//! fresh substructure values in as [`Reading`]s; this module owns every
//! decision about what those readings do to the store.
use vstd::prelude::*;

use crate::models::Cpus;
use crate::models::DiskData;
use crate::models::Memory;
use crate::models::Networks;
use crate::models::Process;
use crate::state::Kind;

verus! {

/// Host identity strings, captured when the snapshot is first built and
/// never refreshed afterwards.
#[derive(Debug, PartialEq, Eq)]
pub struct HostInfo {
    pub name: String,
    pub kernel: String,
    pub os: String,
    pub host_name: String,
}

/// The CPU substructure: the aggregate usage reading (raw bits) plus one
/// entry per core.
#[derive(Debug, PartialEq, Eq)]
pub struct CpuBlock {
    /// Raw bits of the sampled global CPU-usage fraction.
    pub global_usage: u32,
    pub cores: Vec<Cpus>,
}

/// The in-memory cache of live OS metrics. Exclusively mutated by the
/// refresh broker, concurrently readable by the pollers.
#[derive(Debug, PartialEq, Eq)]
pub struct Snapshot {
    pub host: HostInfo,
    pub cpu: CpuBlock,
    pub memory: Memory,
    pub processes: Vec<Process>,
    pub disks: Vec<DiskData>,
    pub networks: Vec<Networks>,
}

/// A fresh reading of exactly one snapshot substructure, produced by the
/// runtime's OS query for the matching refresh kind.
#[derive(Debug, PartialEq, Eq)]
pub enum Reading {
    Cpu(CpuBlock),
    Memory(Memory),
    Proc(Vec<Process>),
    Disk(Vec<DiskData>),
    Net(Vec<Networks>),
}

/// The refresh kind a reading answers.
pub open spec fn reading_kind(r: Reading) -> Kind {
    match r {
        Reading::Cpu(_) => Kind::Cpu,
        Reading::Memory(_) => Kind::Memory,
        Reading::Proc(_) => Kind::Proc,
        Reading::Disk(_) => Kind::Disk,
        Reading::Net(_) => Kind::Net,
    }
}

/// The substructure a reader of refresh kind `k` observes in snapshot `s`;
/// `Init` and `ShuttingDown` name no substructure.
pub open spec fn part(s: Snapshot, k: Kind) -> Option<Reading> {
    match k {
        Kind::Cpu => Some(Reading::Cpu(s.cpu)),
        Kind::Memory => Some(Reading::Memory(s.memory)),
        Kind::Proc => Some(Reading::Proc(s.processes)),
        Kind::Disk => Some(Reading::Disk(s.disks)),
        Kind::Net => Some(Reading::Net(s.networks)),
        Kind::Init => None,
        Kind::ShuttingDown => None,
    }
}

/// The snapshot after one substructure is refreshed in place.
pub open spec fn refreshed(s: Snapshot, r: Reading) -> Snapshot {
    match r {
        Reading::Cpu(c) => Snapshot { cpu: c, ..s },
        Reading::Memory(m) => Snapshot { memory: m, ..s },
        Reading::Proc(p) => Snapshot { processes: p, ..s },
        Reading::Disk(d) => Snapshot { disks: d, ..s },
        Reading::Net(n) => Snapshot { networks: n, ..s },
    }
}

impl Snapshot {
    /// Overwrite exactly the substructure the reading answers for.
    pub fn apply_refresh(&mut self, r: Reading)
        ensures
            *final(self) == refreshed(*old(self), r),
    {
        match r {
            Reading::Cpu(c) => {
                self.cpu = c;
            },
            Reading::Memory(m) => {
                self.memory = m;
            },
            Reading::Proc(p) => {
                self.processes = p;
            },
            Reading::Disk(d) => {
                self.disks = d;
            },
            Reading::Net(n) => {
                self.networks = n;
            },
        }
    }
}

/// A refresh mutates only the corresponding snapshot substructure: a reader
/// of any other refresh kind observes exactly what it observed before, and
/// the host identity never changes.
pub proof fn lemma_refresh_isolated(s: Snapshot, r: Reading, k: Kind)
    ensures
        part(refreshed(s, r), reading_kind(r)) == Some(r),
        k != reading_kind(r) ==> part(refreshed(s, r), k) == part(s, k),
        refreshed(s, r).host == s.host,
{
}

/// The snapshot store: absent until the broker's first `Init` request
/// publishes it, then present for the rest of the run.
#[derive(Debug, PartialEq, Eq)]
pub struct SnapshotStore {
    pub snap: Option<Snapshot>,
}

/// The store after an `Init` request carrying `initial`: published once,
/// then never replaced.
pub open spec fn published_store(st: SnapshotStore, initial: Snapshot) -> SnapshotStore {
    if st.snap is Some {
        st
    } else {
        SnapshotStore { snap: Some(initial) }
    }
}

/// The store after a refresh request: the reading lands in the published
/// snapshot, or is dropped if nothing is published yet.
pub open spec fn refreshed_store(st: SnapshotStore, r: Reading) -> SnapshotStore {
    match st.snap {
        Some(s) => SnapshotStore { snap: Some(refreshed(s, r)) },
        None => st,
    }
}

/// One request to the refresh broker: the one-time publish, an in-place
/// refresh of one substructure, or the terminal shutdown.
#[derive(Debug, PartialEq, Eq)]
pub enum Request {
    Init(Snapshot),
    Refresh(Reading),
    ShuttingDown,
}

/// Whether the broker's loop goes on after a request.
#[derive(Debug, Clone, Copy, PartialEq, Eq, Structural)]
pub enum BrokerStep {
    Continue,
    Stop,
}

/// The store a request leaves behind.
pub open spec fn broker_store_after(st: SnapshotStore, req: Request) -> SnapshotStore {
    match req {
        Request::Init(initial) => published_store(st, initial),
        Request::Refresh(r) => refreshed_store(st, r),
        Request::ShuttingDown => st,
    }
}

/// The loop decision a request produces: only `ShuttingDown` stops the
/// broker.
pub open spec fn broker_step(req: Request) -> BrokerStep {
    if req is ShuttingDown {
        BrokerStep::Stop
    } else {
        BrokerStep::Continue
    }
}

impl SnapshotStore {
    /// The store before the broker has processed any request.
    pub fn new() -> (st: Self)
        ensures
            st.snap is None,
    {
        SnapshotStore { snap: None }
    }

    /// `Init`: publish the store exactly once; a later `Init` is a no-op.
    /// Returns whether this call was the one that published.
    pub fn publish(&mut self, initial: Snapshot) -> (fresh: bool)
        ensures
            *final(self) == published_store(*old(self), initial),
            fresh == (old(self).snap is None),
    {
        if self.snap.is_none() {
            self.snap = Some(initial);
            true
        } else {
            false
        }
    }

    /// Refresh exactly the substructure the reading answers for; a reading
    /// that arrives before the store is published is dropped.
    pub fn refresh(&mut self, r: Reading)
        ensures
            *final(self) == refreshed_store(*old(self), r),
    {
        match self.snap.take() {
            Some(mut s) => {
                s.apply_refresh(r);
                self.snap = Some(s);
            },
            None => {},
        }
    }

    /// One iteration of the broker's mailbox loop: apply the request to the
    /// store and decide whether the loop goes on.
    pub fn handle_request(&mut self, req: Request) -> (step: BrokerStep)
        ensures
            *final(self) == broker_store_after(*old(self), req),
            step == broker_step(req),
    {
        match req {
            Request::Init(initial) => {
                self.publish(initial);
                BrokerStep::Continue
            },
            Request::Refresh(r) => {
                self.refresh(r);
                BrokerStep::Continue
            },
            Request::ShuttingDown => BrokerStep::Stop,
        }
    }
}

/// The snapshot store is published exactly once: any `Init` after the first
/// has no further effect on the store.
pub proof fn lemma_init_idempotent(st: SnapshotStore, first: Snapshot, later: Snapshot)
    ensures
        published_store(published_store(st, first), later) == published_store(st, first),
{
}

} // verus!
