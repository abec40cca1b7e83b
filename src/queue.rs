//! The bounded first-in first-out hand-off between the listener and the writer.

use vstd::prelude::*;
use std::collections::VecDeque;

verus! {

/// A message as the transport delivered it.
#[derive(Debug)]
pub struct RawMessage {
    pub topic: String,
    pub payload: Vec<u8>,
}

pub ghost struct RawView {
    pub topic: Seq<char>,
    pub payload: Seq<u8>,
}

impl View for RawMessage {
    type V = RawView;

    open spec fn view(&self) -> RawView {
        RawView { topic: self.topic@, payload: self.payload@ }
    }
}

impl RawMessage {
    pub fn new(topic: String, payload: Vec<u8>) -> (r: RawMessage)
        ensures
            r@ == (RawView { topic: topic@, payload: payload@ }),
    {
        RawMessage { topic, payload }
    }
}

/// The queue's state: what waits in it, its capacity, and every message it
/// ever accepted and handed out, in order.
pub ghost struct QueueView {
    pub pending: Seq<RawView>,
    pub capacity: nat,
    pub accepted: Seq<RawView>,
    pub delivered: Seq<RawView>,
}

impl QueueView {
    pub open spec fn wf(self) -> bool {
        &&& self.capacity > 0
        &&& self.pending.len() <= self.capacity
        &&& self.delivered + self.pending == self.accepted
    }

    pub open spec fn has_room(self) -> bool {
        self.pending.len() < self.capacity
    }

    /// The state after `m` is accepted.
    pub open spec fn enqueued(self, m: RawView) -> QueueView {
        QueueView {
            pending: self.pending.push(m),
            accepted: self.accepted.push(m),
            ..self
        }
    }

    /// The state after the oldest message is handed out.
    pub open spec fn dequeued(self) -> QueueView {
        QueueView {
            pending: self.pending.drop_first(),
            delivered: self.delivered.push(self.pending[0]),
            ..self
        }
    }
}

/// A bounded FIFO queue of raw messages. A full queue refuses a message and
/// hands it back, so that the producer waits: nothing is dropped.
pub struct IngestQueue {
    items: VecDeque<RawMessage>,
    capacity: usize,
    accepted: Ghost<Seq<RawView>>,
    delivered: Ghost<Seq<RawView>>,
}

impl View for IngestQueue {
    type V = QueueView;

    closed spec fn view(&self) -> QueueView {
        QueueView {
            pending: self.items@.map_values(|m: RawMessage| m@),
            capacity: self.capacity as nat,
            accepted: self.accepted@,
            delivered: self.delivered@,
        }
    }
}

impl IngestQueue {
    pub fn new(capacity: usize) -> (r: IngestQueue)
        requires
            capacity > 0,
        ensures
            r@.wf(),
            r@.pending.len() == 0,
            r@.capacity == capacity,
            r@.accepted.len() == 0,
            r@.delivered.len() == 0,
    {
        let r = IngestQueue {
            items: VecDeque::new(),
            capacity,
            accepted: Ghost(Seq::empty()),
            delivered: Ghost(Seq::empty()),
        };
        assert(r@.pending =~= Seq::<RawView>::empty());
        assert(r@.delivered + r@.pending =~= r@.accepted);
        r
    }

    pub fn len(&self) -> (r: usize)
        ensures
            r == self@.pending.len(),
    {
        self.items.len()
    }

    pub fn capacity(&self) -> (r: usize)
        ensures
            r == self@.capacity,
    {
        self.capacity
    }

    pub fn is_empty(&self) -> (r: bool)
        ensures
            r == (self@.pending.len() == 0),
    {
        self.items.len() == 0
    }

    pub fn is_full(&self) -> (r: bool)
        ensures
            r == !self@.has_room(),
    {
        self.items.len() >= self.capacity
    }

    /// Appends `msg` if there is room; otherwise hands it back unchanged and
    /// leaves the queue as it was.
    pub fn try_enqueue(&mut self, msg: RawMessage) -> (r: Result<(), RawMessage>)
        requires
            old(self)@.wf(),
        ensures
            final(self)@.wf(),
            old(self)@.has_room() ==> r is Ok && final(self)@ == old(self)@.enqueued(msg@),
            !old(self)@.has_room() ==> r is Err && r->Err_0@ == msg@ && final(self)@ == old(self)@,
    {
        if self.items.len() >= self.capacity {
            return Err(msg);
        }
        let ghost m = msg@;
        let ghost before = self@;
        self.items.push_back(msg);
        self.accepted = Ghost(self.accepted@.push(m));
        assert(self@.pending =~= before.pending.push(m));
        assert(self@.delivered + self@.pending =~= self@.accepted);
        assert(self@ == before.enqueued(m));
        Ok(())
    }

    /// Removes and returns the oldest message, if any.
    pub fn dequeue(&mut self) -> (r: Option<RawMessage>)
        requires
            old(self)@.wf(),
        ensures
            final(self)@.wf(),
            old(self)@.pending.len() == 0 ==> r is None && final(self)@ == old(self)@,
            old(self)@.pending.len() > 0 ==> r is Some && r->0@ == old(self)@.pending[0]
                && final(self)@ == old(self)@.dequeued(),
    {
        let ghost before = self@;
        match self.items.pop_front() {
            None => None,
            Some(m) => {
                self.delivered = Ghost(self.delivered@.push(m@));
                assert(self@.pending =~= before.pending.drop_first());
                assert(self@.delivered + self@.pending =~= self@.accepted);
                assert(self@ == before.dequeued());
                Some(m)
            },
        }
    }
}

/// First in, first out, whatever the capacity and however enqueues and
/// dequeues interleave: the next message handed out is the oldest accepted
/// one not yet handed out, so the k-th message out is the k-th message in.
pub proof fn lemma_first_in_first_out(v: QueueView, m: RawView)
    requires
        v.wf(),
    ensures
        v.delivered.len() <= v.accepted.len(),
        forall|i: int| 0 <= i < v.delivered.len() ==> v.delivered[i] == v.accepted[i],
        v.pending.len() > 0 ==> v.pending[0] == v.accepted[v.delivered.len() as int],
        v.pending.len() > 0 ==> v.dequeued().wf(),
        v.has_room() ==> v.enqueued(m).wf(),
{
    assert forall|i: int| 0 <= i < v.delivered.len() implies v.delivered[i] == v.accepted[i] by {
        assert(v.accepted[i] == (v.delivered + v.pending)[i]);
    }
    if v.pending.len() > 0 {
        assert(v.accepted[v.delivered.len() as int] == (v.delivered + v.pending)[v.delivered.len() as int]);
        let d = v.dequeued();
        assert(d.delivered + d.pending =~= d.accepted);
    }
    let e = v.enqueued(m);
    assert(e.delivered + e.pending =~= e.accepted);
}

/// Backpressure: a full queue holds at least one message, and handing one
/// out makes room, so that the refused message is accepted on the next try
/// and waits behind the ones already queued.
pub proof fn lemma_backpressure(v: QueueView, m: RawView)
    requires
        v.wf(),
        !v.has_room(),
    ensures
        v.pending.len() > 0,
        v.dequeued().has_room(),
        v.dequeued().enqueued(m).pending == v.pending.drop_first().push(m),
        v.dequeued().enqueued(m).accepted == v.accepted.push(m),
{
}

} // verus!
