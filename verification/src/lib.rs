//! Core of a host telemetry agent: the sampling-and-transport pipeline.
//!
//! The pipeline has four parts: a shared focus state that drives per-category
//! sampling cadence, a refresh broker that owns the in-memory metrics
//! snapshot, a fleet of pollers that build metric records from the snapshot,
//! and a transmitter that frames serialized records into fixed-capacity
//! transport buffers. The surrounding runtime (the async scheduler, the OS
//! metric sources and the interprocess transport) lives outside this crate
//! and hands plain values in and out.
use vstd::prelude::*;

pub mod mailbox;
pub mod models;
pub mod poller;
pub mod snapshot;
pub mod state;
pub mod transmitter;

verus! {

/// Capacity in bytes of one transport frame.
pub const MAX_SIZE: usize = 1024;

/// Fast and slow poll intervals, in milliseconds, for the memory poller.
pub const MEM_DURATION: u64 = 2000;
pub const LMEM_DURATION: u64 = 3000;

/// Fast and slow poll intervals, in milliseconds, for the network poller.
pub const NET_DURATION: u64 = 2120;
pub const LNET_DURATION: u64 = 3214;

/// Fast and slow poll intervals, in milliseconds, for the sockets poller.
pub const SOCKET_DURATION: u64 = 1120;
pub const LSOCKET_DURATION: u64 = 3520;

/// Fast and slow poll intervals, in milliseconds, for the process poller.
pub const PROC_DURATION: u64 = 3141;
pub const LPROC_DURATION: u64 = 5260;

/// Fast and slow poll intervals, in milliseconds, for the disk poller.
pub const DISK_DURATION: u64 = 1512;
pub const LDISK_DURATION: u64 = 2893;

} // verus!
