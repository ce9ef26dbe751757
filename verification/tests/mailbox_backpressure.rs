use aware_agent::mailbox::Mailbox;
use aware_agent::models::Data;

fn record(n: u64) -> Data {
    Data::Memory(aware_agent::models::Memory {
        t_ram: n,
        u_ram: 0,
        a_ram: 0,
        t_swap: 0,
        u_swap: 0,
        a_swap: 0,
    })
}

#[test]
fn burst_past_capacity_blocks_until_a_drain() {
    // Capacity C, a burst of C + 1 sends: the first C land, the (C + 1)-th
    // is refused until the consumer drains one entry.
    let c = 3;
    let mut mb = Mailbox::new(c);
    for i in 0..c {
        assert!(mb.try_send(record(i as u64)));
    }
    assert_eq!(mb.len(), c);
    assert!(!mb.try_send(record(99)));
    assert_eq!(mb.len(), c);
    // The transmitter drains one entry; the blocked producer now succeeds.
    assert_eq!(mb.try_recv(), Some(record(0)));
    assert!(mb.try_send(record(99)));
    assert_eq!(mb.len(), c);
}

#[test]
fn records_drain_oldest_first() {
    let mut mb = Mailbox::new(8);
    assert!(mb.try_send(record(1)));
    assert!(mb.try_send(record(2)));
    assert!(mb.try_send(record(3)));
    assert_eq!(mb.try_recv(), Some(record(1)));
    assert_eq!(mb.try_recv(), Some(record(2)));
    assert_eq!(mb.try_recv(), Some(record(3)));
    assert_eq!(mb.try_recv(), None);
}

#[test]
fn empty_mailbox_drains_nothing() {
    let mut mb = Mailbox::new(4);
    assert_eq!(mb.try_recv(), None);
    assert_eq!(mb.len(), 0);
}
