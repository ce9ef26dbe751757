//! The dispatch channel: a bounded mailbox carrying metric records from the
//! pollers to the transmitter.
//!
//! The channel is the system's sole backpressure mechanism: it has many
//! producers, one consumer, and a fixed capacity. A send against a full
//! mailbox is refused — the producer must suspend and retry after the
//! consumer drains an entry. This module models the queue discipline; the
//! runtime supplies the suspension.
use vstd::prelude::*;

use crate::models::Data;

verus! {

/// What a send does to the queue: append when there is room, refuse and
/// leave the queue unchanged when it is full.
pub open spec fn send_spec(q: Seq<Data>, cap: nat, d: Data) -> (Seq<Data>, bool) {
    if q.len() < cap {
        (q.push(d), true)
    } else {
        (q, false)
    }
}

/// What a receive does to the queue: take the oldest entry, or nothing from
/// an empty queue.
pub open spec fn recv_spec(q: Seq<Data>) -> (Seq<Data>, Option<Data>) {
    if q.len() == 0 {
        (q, None)
    } else {
        (q.drop_first(), Some(q[0]))
    }
}

/// The bounded mailbox between the pollers and the transmitter.
pub struct Mailbox {
    items: Vec<Data>,
    capacity: usize,
}

impl Mailbox {
    /// The records queued, oldest first.
    pub closed spec fn queue(self) -> Seq<Data> {
        self.items@
    }

    /// The fixed capacity the mailbox was created with.
    pub closed spec fn cap(self) -> nat {
        self.capacity as nat
    }

    /// The mailbox never holds more than its capacity, and the capacity is
    /// a real bound.
    pub closed spec fn wf(self) -> bool {
        self.items@.len() <= self.capacity && self.capacity > 0
    }

    /// An empty mailbox of the given capacity.
    pub fn new(capacity: usize) -> (m: Self)
        requires
            capacity > 0,
        ensures
            m.wf(),
            m.cap() == capacity,
            m.queue() == Seq::<Data>::empty(),
    {
        Mailbox { items: Vec::new(), capacity }
    }

    /// How many records are queued.
    pub fn len(&self) -> (n: usize)
        ensures
            n == self.queue().len(),
    {
        self.items.len()
    }

    /// A producer's send: appended if there is room, refused if the mailbox
    /// is full (the producer must suspend until the consumer drains).
    pub fn try_send(&mut self, d: Data) -> (accepted: bool)
        requires
            old(self).wf(),
        ensures
            final(self).wf(),
            final(self).cap() == old(self).cap(),
            (final(self).queue(), accepted) == send_spec(old(self).queue(), old(self).cap(), d),
    {
        if self.items.len() < self.capacity {
            self.items.push(d);
            true
        } else {
            false
        }
    }

    /// The consumer's non-blocking drain of one record, oldest first.
    pub fn try_recv(&mut self) -> (d: Option<Data>)
        requires
            old(self).wf(),
        ensures
            final(self).wf(),
            final(self).cap() == old(self).cap(),
            (final(self).queue(), d) == recv_spec(old(self).queue()),
    {
        if self.items.len() == 0 {
            None
        } else {
            let d = self.items.remove(0);
            proof {
                assert(self.items@ =~= old(self).items@.drop_first());
            }
            Some(d)
        }
    }
}

/// Backpressure: against a mailbox holding its full capacity `cap` the next
/// send is refused and the queue is unchanged — the producer blocks — and as
/// soon as the consumer drains one entry, the same send is accepted.
pub proof fn lemma_backpressure(q: Seq<Data>, cap: nat, d: Data)
    requires
        q.len() == cap,
        cap > 0,
    ensures
        send_spec(q, cap, d) == (q, false),
        recv_spec(q).0.len() == cap - 1,
        send_spec(recv_spec(q).0, cap, d) == (recv_spec(q).0.push(d), true),
{
}

} // verus!
