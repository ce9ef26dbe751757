//! Metric records: plain value objects produced fresh each poll cycle and
//! never mutated after creation.
//!
//! Fractional CPU-usage readings are carried opaquely as the 32 raw bits of
//! the sampled value; this crate never computes with them, it only moves
//! them from the snapshot into records.
use vstd::prelude::*;

verus! {

/// Memory metrics record.
#[derive(Debug, Clone, Copy, PartialEq, Eq)]
pub struct Memory {
    pub t_ram: u64,
    pub u_ram: u64,
    pub a_ram: u64,
    pub t_swap: u64,
    pub u_swap: u64,
    pub a_swap: u64,
}

/// Aggregate host summary record.
#[derive(Debug, PartialEq, Eq)]
pub struct Meta {
    pub t_mem: u64,
    pub t_swap: u64,
    pub name: String,
    pub kernel: String,
    pub os: String,
    pub host_name: String,
    pub n_cpu: usize,
    pub n_proc: usize,
    /// Raw bits of the sampled global CPU-usage fraction.
    pub glob_cpu: u32,
}

/// Per-disk metrics record.
#[derive(Debug, PartialEq, Eq)]
pub struct DiskData {
    pub name: String,
    pub fs: String,
    pub type_: String,
    pub removable: bool,
    pub loc: String,
    pub read_only: bool,
    pub t_space: u64,
    pub a_space: u64,
    pub t_written: u64,
    pub written: u64,
    pub t_read: u64,
    pub read: u64,
}

/// Per-interface network metrics record.
#[derive(Debug, PartialEq, Eq)]
pub struct Networks {
    pub name: String,
    pub t_down: u64,
    pub down: u64,
    pub t_up: u64,
    pub up: u64,
    pub t_packet_rx: u64,
    pub packet_rx: u64,
    pub t_packet_tx: u64,
    pub packet_tx: u64,
    pub t_err_rx: u64,
    pub err_rx: u64,
    pub t_err_tx: u64,
    pub err_tx: u64,
}

/// One live socket, as read from the OS connection table.
#[derive(Debug, Clone, PartialEq, Eq)]
pub enum Sockets {
    Tcp {
        local_addr: String,
        local_port: u16,
        remote_addr: String,
        remote_port: u16,
        pids: Vec<u32>,
        state: String,
    },
    Udp {
        local_addr: String,
        local_port: u16,
        pid: Vec<u32>,
    },
}

/// Per-core CPU metrics record.
#[derive(Debug, PartialEq, Eq)]
pub struct Cpus {
    pub brand: String,
    pub cpu_name: String,
    /// Raw bits of the sampled per-core CPU-usage fraction.
    pub cpu_per: u32,
    pub freq: u64,
}

/// Per-process metrics record.
#[derive(Debug, PartialEq, Eq)]
pub struct Process {
    pub pid: u32,
    pub name: String,
    pub exe: String,
    /// Raw bits of the sampled process CPU-usage fraction.
    pub cpu: u32,
    pub mem: u64,
    pub status: String,
    pub cmd: String,
    pub parent: Option<u32>,
    pub user_id: Option<String>,
}

/// A metric record as carried by the dispatch channel, plus the
/// `ShuttingDown` sentinel that tells the transmitter to halt.
#[derive(Debug, Clone, PartialEq, Eq)]
pub enum Data {
    Meta(Meta),
    Disk(Vec<DiskData>),
    Networks(Vec<Networks>),
    Sockets(Vec<Sockets>),
    Cpus(Vec<Cpus>),
    Process(Vec<Process>),
    Memory(Memory),
    ShuttingDown,
}

impl Clone for Meta {
    /// A clone carries exactly the fields of the original.
    fn clone(&self) -> (res: Self)
        ensures
            res == *self,
    {
        Meta {
            t_mem: self.t_mem,
            t_swap: self.t_swap,
            name: self.name.clone(),
            kernel: self.kernel.clone(),
            os: self.os.clone(),
            host_name: self.host_name.clone(),
            n_cpu: self.n_cpu,
            n_proc: self.n_proc,
            glob_cpu: self.glob_cpu,
        }
    }
}

impl Clone for DiskData {
    /// A clone carries exactly the fields of the original.
    fn clone(&self) -> (res: Self)
        ensures
            res == *self,
    {
        DiskData {
            name: self.name.clone(),
            fs: self.fs.clone(),
            type_: self.type_.clone(),
            removable: self.removable,
            loc: self.loc.clone(),
            read_only: self.read_only,
            t_space: self.t_space,
            a_space: self.a_space,
            t_written: self.t_written,
            written: self.written,
            t_read: self.t_read,
            read: self.read,
        }
    }
}

impl Clone for Networks {
    /// A clone carries exactly the fields of the original.
    fn clone(&self) -> (res: Self)
        ensures
            res == *self,
    {
        Networks {
            name: self.name.clone(),
            t_down: self.t_down,
            down: self.down,
            t_up: self.t_up,
            up: self.up,
            t_packet_rx: self.t_packet_rx,
            packet_rx: self.packet_rx,
            t_packet_tx: self.t_packet_tx,
            packet_tx: self.packet_tx,
            t_err_rx: self.t_err_rx,
            err_rx: self.err_rx,
            t_err_tx: self.t_err_tx,
            err_tx: self.err_tx,
        }
    }
}

impl Clone for Cpus {
    /// A clone carries exactly the fields of the original.
    fn clone(&self) -> (res: Self)
        ensures
            res == *self,
    {
        Cpus {
            brand: self.brand.clone(),
            cpu_name: self.cpu_name.clone(),
            cpu_per: self.cpu_per,
            freq: self.freq,
        }
    }
}

impl Clone for Process {
    /// A clone carries exactly the fields of the original.
    fn clone(&self) -> (res: Self)
        ensures
            res == *self,
    {
        Process {
            pid: self.pid,
            name: self.name.clone(),
            exe: self.exe.clone(),
            cpu: self.cpu,
            mem: self.mem,
            status: self.status.clone(),
            cmd: self.cmd.clone(),
            parent: self.parent,
            user_id: self.user_id.clone(),
        }
    }
}

} // verus!
