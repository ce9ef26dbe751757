//! The transmitter: framing serialized records for the transport.
//!
//! The runtime drains records from the dispatch mailbox, serializes each
//! with its length-agnostic binary codec, and hands the bytes here. This
//! module decides everything about the wire shape: which records may be
//! published at all, which kind tag each record carries, and how a payload
//! is split into consecutive fixed-capacity frames with the final frame
//! zero-padded.
use vstd::prelude::*;

use crate::models::Data;
use crate::MAX_SIZE;

verus! {

/// How many records the transmitter drains per wake, at most.
pub const CYCLES: usize = 24;

/// The kind tag stamped on every frame of a serialized record.
#[derive(Debug, Clone, Copy, PartialEq, Eq, Structural)]
pub enum TelemetryKind {
    Meta,
    Cpus,
    Disk,
    Networks,
    Sockets,
    Process,
    Memory,
}

/// One transport frame: a kind tag and a buffer of exactly `MAX_SIZE`
/// bytes.
#[derive(Debug, Clone, PartialEq, Eq)]
pub struct Telemetry {
    pub kind: TelemetryKind,
    pub data: Vec<u8>,
}

impl Telemetry {
    /// A frame's buffer always holds exactly `MAX_SIZE` bytes.
    pub open spec fn wf(self) -> bool {
        self.data@.len() == MAX_SIZE
    }
}

/// The kind tag a record is published under; the `ShuttingDown` sentinel is
/// never published.
pub open spec fn kind_of_spec(d: Data) -> Option<TelemetryKind> {
    match d {
        Data::Meta(_) => Some(TelemetryKind::Meta),
        Data::Cpus(_) => Some(TelemetryKind::Cpus),
        Data::Disk(_) => Some(TelemetryKind::Disk),
        Data::Networks(_) => Some(TelemetryKind::Networks),
        Data::Sockets(_) => Some(TelemetryKind::Sockets),
        Data::Process(_) => Some(TelemetryKind::Process),
        Data::Memory(_) => Some(TelemetryKind::Memory),
        Data::ShuttingDown => None,
    }
}

/// The kind tag for a record, or `None` for the sentinel.
pub fn kind_of(d: &Data) -> (k: Option<TelemetryKind>)
    ensures
        k == kind_of_spec(*d),
{
    match d {
        Data::Meta(_) => Some(TelemetryKind::Meta),
        Data::Cpus(_) => Some(TelemetryKind::Cpus),
        Data::Disk(_) => Some(TelemetryKind::Disk),
        Data::Networks(_) => Some(TelemetryKind::Networks),
        Data::Sockets(_) => Some(TelemetryKind::Sockets),
        Data::Process(_) => Some(TelemetryKind::Process),
        Data::Memory(_) => Some(TelemetryKind::Memory),
        Data::ShuttingDown => None,
    }
}

/// How many frames a payload of `len` bytes spans: one per started
/// `MAX_SIZE` block, none for an empty payload.
pub open spec fn frame_count(len: nat) -> nat {
    ((len as int + MAX_SIZE as int - 1) / (MAX_SIZE as int)) as nat
}

/// The byte at offset `j` of frame `i`: the payload byte at `i * MAX_SIZE
/// + j`, or zero padding past the payload's end.
pub open spec fn frame_byte(p: Seq<u8>, i: int, j: int) -> u8 {
    if i * (MAX_SIZE as int) + j < p.len() {
        p[i * (MAX_SIZE as int) + j]
    } else {
        0
    }
}

/// The chunking rule: the payload split into consecutive frames of exactly
/// `MAX_SIZE` bytes, the final frame zero-padded past the payload's end,
/// every frame stamped with the same kind tag.
pub open spec fn is_chunking(frames: Seq<Telemetry>, kind: TelemetryKind, p: Seq<u8>) -> bool {
    &&& frames.len() == frame_count(p.len())
    &&& forall|i: int| 0 <= i < frames.len() ==> (#[trigger] frames[i]).kind == kind
    &&& forall|i: int| 0 <= i < frames.len() ==> (#[trigger] frames[i]).wf()
    &&& forall|i: int, j: int|
        0 <= i < frames.len() && 0 <= j < MAX_SIZE ==> (#[trigger] frames[i].data@[j]) == frame_byte(
            p,
            i,
            j,
        )
}

/// Split one record's serialized bytes into transport frames: consecutive
/// `MAX_SIZE`-byte chunks, the last zero-padded, all tagged `kind`.
pub fn chunk_payload(kind: TelemetryKind, payload: &Vec<u8>) -> (frames: Vec<Telemetry>)
    requires
        payload@.len() <= usize::MAX - MAX_SIZE,
    ensures
        is_chunking(frames@, kind, payload@),
{
    let mut frames: Vec<Telemetry> = Vec::new();
    let mut off: usize = 0;
    while off < payload.len()
        invariant
            payload@.len() <= usize::MAX - MAX_SIZE,
            off == frames@.len() * MAX_SIZE,
            off <= payload@.len() + MAX_SIZE,
            frames@.len() > 0 ==> (frames@.len() - 1) * MAX_SIZE < payload@.len(),
            forall|i: int| 0 <= i < frames@.len() ==> (#[trigger] frames@[i]).kind == kind,
            forall|i: int| 0 <= i < frames@.len() ==> (#[trigger] frames@[i]).wf(),
            forall|i: int, j: int|
                0 <= i < frames@.len() && 0 <= j < MAX_SIZE ==> (#[trigger] frames@[i].data@[j])
                    == frame_byte(payload@, i, j),
        decreases payload@.len() + MAX_SIZE - off,
    {
        let ghost fi = frames@.len() as int;
        let mut data: Vec<u8> = Vec::new();
        let mut j: usize = 0;
        while j < MAX_SIZE
            invariant
                payload@.len() <= usize::MAX - MAX_SIZE,
                off == fi * MAX_SIZE,
                off < payload@.len(),
                j <= MAX_SIZE,
                data@.len() == j,
                forall|jj: int| 0 <= jj < j ==> (#[trigger] data@[jj]) == frame_byte(
                    payload@,
                    fi,
                    jj,
                ),
            decreases MAX_SIZE - j,
        {
            if j < payload.len() - off {
                data.push(payload[off + j]);
            } else {
                data.push(0u8);
            }
            j += 1;
        }
        frames.push(Telemetry { kind, data });
        off += MAX_SIZE;
    }
    proof {
        lemma_frame_count_exact(payload@.len(), frames@.len());
    }
    frames
}

/// After the chunking loop: `n` full blocks starting before the payload's
/// end and reaching it make `n` exactly the ceiling of `len / MAX_SIZE`.
proof fn lemma_frame_count_exact(len: nat, n: nat)
    requires
        n * MAX_SIZE >= len,
        n > 0 ==> (n - 1) * MAX_SIZE < len,
    ensures
        frame_count(len) == n,
{
    let m = MAX_SIZE as int;
    let l = len as int;
    let k = n as int;
    if n == 0 {
        assert((l + m - 1) / m == k) by (nonlinear_arith)
            requires
                m == 1024,
                l == 0,
                k == 0,
        ;
    } else {
        assert((l + m - 1) / m == k) by (nonlinear_arith)
            requires
                m == 1024,
                k * m >= l,
                (k - 1) * m < l,
                k > 0,
                l >= 0,
        ;
    }
}

/// The frames one drained record is published as, given its serialized
/// bytes: the record's own kind tag on every frame, the payload chunked by
/// the chunking rule. The `ShuttingDown` sentinel is never published and
/// yields no frames.
pub fn record_frames(d: &Data, payload: &Vec<u8>) -> (r: Option<Vec<Telemetry>>)
    requires
        payload@.len() <= usize::MAX - MAX_SIZE,
    ensures
        (r is Some) == !(*d is ShuttingDown),
        r matches Some(fs) ==> (kind_of_spec(*d) matches Some(k) && is_chunking(
            fs@,
            k,
            payload@,
        )),
{
    match kind_of(d) {
        Some(k) => Some(chunk_payload(k, payload)),
        None => None,
    }
}

/// The publishable prefix of a drained batch: every record strictly before
/// the first `ShuttingDown` sentinel, in order, and whether the sentinel
/// was seen (after it, nothing further is published this run).
pub fn publishable_prefix(batch: Vec<Data>) -> (r: (Vec<Data>, bool))
    ensures
        r.0@.len() <= batch@.len(),
        r.0@ == batch@.take(r.0@.len() as int),
        forall|i: int| 0 <= i < r.0@.len() ==> !((#[trigger] batch@[i]) is ShuttingDown),
        r.1 == (r.0@.len() < batch@.len()),
        r.1 ==> batch@[r.0@.len() as int] is ShuttingDown,
{
    let ghost orig = batch@;
    let mut rest = batch;
    let mut out: Vec<Data> = Vec::new();
    let mut halted = false;
    while !halted && rest.len() > 0
        invariant
            !halted ==> orig == out@ + rest@,
            halted ==> out@.len() < orig.len() && orig[out@.len() as int] is ShuttingDown,
            out@ == orig.take(out@.len() as int),
            forall|i: int| 0 <= i < out@.len() ==> !((#[trigger] orig[i]) is ShuttingDown),
        decreases rest@.len() + (if halted { 0int } else { 1int }),
    {
        let d = rest.remove(0);
        match d {
            Data::ShuttingDown => {
                halted = true;
            },
            other => {
                out.push(other);
                proof {
                    assert(out@ =~= orig.take(out@.len() as int));
                }
            },
        }
    }
    (out, halted)
}

} // verus!
