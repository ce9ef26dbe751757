use aware_agent::models::{Data, Memory};
use aware_agent::transmitter::{
    chunk_payload, kind_of, publishable_prefix, record_frames, TelemetryKind, CYCLES,
};
use aware_agent::MAX_SIZE;

fn sample_mem_record() -> Data {
    Data::Memory(Memory {
        t_ram: 1,
        u_ram: 2,
        a_ram: 3,
        t_swap: 4,
        u_swap: 5,
        a_swap: 6,
    })
}

#[test]
fn oversized_payload_chunks_into_two_tagged_frames() {
    // One byte past the frame capacity: exactly two frames, the second
    // zero-padded past the payload's end, both carrying the same kind.
    let payload: Vec<u8> = (0..MAX_SIZE + 1).map(|i| (i % 251) as u8 + 1).collect();
    let frames = chunk_payload(TelemetryKind::Cpus, &payload);
    assert_eq!(frames.len(), 2);
    assert_eq!(frames[0].kind, TelemetryKind::Cpus);
    assert_eq!(frames[1].kind, TelemetryKind::Cpus);
    assert_eq!(frames[0].data.len(), MAX_SIZE);
    assert_eq!(frames[1].data.len(), MAX_SIZE);
    assert_eq!(&frames[0].data[..], &payload[..MAX_SIZE]);
    assert_eq!(frames[1].data[0], payload[MAX_SIZE]);
    assert!(frames[1].data[1..].iter().all(|&b| b == 0));
}

#[test]
fn exact_payload_fills_one_frame() {
    let payload: Vec<u8> = vec![7u8; MAX_SIZE];
    let frames = chunk_payload(TelemetryKind::Disk, &payload);
    assert_eq!(frames.len(), 1);
    assert_eq!(&frames[0].data[..], &payload[..]);
}

#[test]
fn empty_payload_yields_no_frames() {
    let payload: Vec<u8> = Vec::new();
    let frames = chunk_payload(TelemetryKind::Meta, &payload);
    assert!(frames.is_empty());
}

#[test]
fn short_payload_is_zero_padded() {
    let payload = vec![9u8, 8u8, 7u8];
    let frames = chunk_payload(TelemetryKind::Networks, &payload);
    assert_eq!(frames.len(), 1);
    assert_eq!(&frames[0].data[..3], &[9, 8, 7]);
    assert!(frames[0].data[3..].iter().all(|&b| b == 0));
}

#[test]
fn every_record_kind_gets_its_own_tag() {
    let meta = aware_agent::models::Meta {
        t_mem: 0,
        t_swap: 0,
        name: String::new(),
        kernel: String::new(),
        os: String::new(),
        host_name: String::new(),
        n_cpu: 0,
        n_proc: 0,
        glob_cpu: 0,
    };
    assert_eq!(kind_of(&Data::Meta(meta)), Some(TelemetryKind::Meta));
    assert_eq!(kind_of(&Data::Cpus(Vec::new())), Some(TelemetryKind::Cpus));
    assert_eq!(kind_of(&Data::Disk(Vec::new())), Some(TelemetryKind::Disk));
    assert_eq!(
        kind_of(&Data::Networks(Vec::new())),
        Some(TelemetryKind::Networks)
    );
    assert_eq!(
        kind_of(&Data::Sockets(Vec::new())),
        Some(TelemetryKind::Sockets)
    );
    assert_eq!(
        kind_of(&Data::Process(Vec::new())),
        Some(TelemetryKind::Process)
    );
    assert_eq!(kind_of(&sample_mem_record()), Some(TelemetryKind::Memory));
    assert_eq!(kind_of(&Data::ShuttingDown), None);
}

#[test]
fn sentinel_yields_no_frames() {
    let payload = vec![1u8, 2u8];
    assert!(record_frames(&Data::ShuttingDown, &payload).is_none());
    let frames = record_frames(&sample_mem_record(), &payload).unwrap();
    assert_eq!(frames.len(), 1);
    assert_eq!(frames[0].kind, TelemetryKind::Memory);
}

#[test]
fn serialized_record_survives_framing() {
    // A realistic payload: serialize with the same binary codec the
    // transmitter uses, frame it, then reassemble and decode.
    let values: Vec<u64> = (0..200).map(|i| i * 31 + 5).collect();
    let payload = bincode::serialize(&values).expect("serialize");
    assert!(payload.len() > MAX_SIZE);
    let frames = chunk_payload(TelemetryKind::Process, &payload);
    assert_eq!(frames.len(), payload.len().div_ceil(MAX_SIZE));
    let mut rejoined: Vec<u8> = Vec::new();
    for f in &frames {
        rejoined.extend_from_slice(&f.data);
    }
    rejoined.truncate(payload.len());
    assert_eq!(rejoined, payload);
    let decoded: Vec<u64> = bincode::deserialize(&rejoined).expect("deserialize");
    assert_eq!(decoded, values);
}

#[test]
fn batch_halts_at_the_sentinel() {
    let batch = vec![
        sample_mem_record(),
        Data::Cpus(Vec::new()),
        Data::ShuttingDown,
        Data::Disk(Vec::new()),
    ];
    let (prefix, halted) = publishable_prefix(batch);
    assert!(halted);
    assert_eq!(prefix.len(), 2);
    assert_eq!(prefix[0], sample_mem_record());
    assert_eq!(prefix[1], Data::Cpus(Vec::new()));
}

#[test]
fn batch_without_sentinel_is_published_whole() {
    let batch = vec![sample_mem_record(), Data::Cpus(Vec::new())];
    let (prefix, halted) = publishable_prefix(batch.clone());
    assert!(!halted);
    assert_eq!(prefix, batch);
}

#[test]
fn leading_sentinel_publishes_nothing() {
    let batch = vec![Data::ShuttingDown, sample_mem_record()];
    let (prefix, halted) = publishable_prefix(batch);
    assert!(halted);
    assert!(prefix.is_empty());
}

#[test]
fn drain_ceiling_is_a_real_batch_bound() {
    assert!(CYCLES > 0);
    let batch: Vec<Data> = (0..CYCLES).map(|_| sample_mem_record()).collect();
    let (prefix, halted) = publishable_prefix(batch);
    assert!(!halted);
    assert_eq!(prefix.len(), CYCLES);
}
