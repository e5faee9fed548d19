use vstd::prelude::*;

verus! {

/// What became of a chunk that the producer offered.
#[derive(Debug, Clone, Copy, PartialEq, Eq)]
pub enum Offer {
    /// The slot was empty and now holds the chunk.
    Accepted,
    /// The slot still holds an earlier chunk: wait until the consumer takes it.
    Full,
    /// The consumer has gone: stop producing.
    Closed,
}

/// A queue of capacity one between the producer of chunk sizes and the
/// consumer: the producer may not hand over a chunk while the previous one
/// has not been taken.
pub struct ChunkHandoff {
    slot: Option<u64>,
    closed: bool,
    sent: Ghost<Seq<u64>>,
    received: Ghost<Seq<u64>>,
}

impl ChunkHandoff {
    /// Every chunk the producer handed over, in order.
    pub closed spec fn sent(&self) -> Seq<u64> {
        self.sent@
    }

    /// Every chunk the consumer took, in order.
    pub closed spec fn received(&self) -> Seq<u64> {
        self.received@
    }

    /// Whether the consumer has gone.
    pub closed spec fn is_closed(&self) -> bool {
        self.closed
    }

    /// What was taken is what was sent, apart from the one chunk in the slot.
    pub closed spec fn wf(&self) -> bool {
        match self.slot {
            Some(x) => self.sent@ == self.received@.push(x),
            None => self.sent@ == self.received@,
        }
    }

    /// An empty, open handoff.
    pub fn new() -> (r: Self)
        ensures
            r.wf(),
            r.sent() == Seq::<u64>::empty(),
            r.received() == Seq::<u64>::empty(),
            !r.is_closed(),
    {
        ChunkHandoff { slot: None, closed: false, sent: Ghost(Seq::empty()), received: Ghost(Seq::empty()) }
    }

    /// Whether a chunk waits in the slot.
    pub fn is_full(&self) -> (r: bool)
        requires
            self.wf(),
        ensures
            r == (self.sent().len() > self.received().len()),
    {
        self.slot.is_some()
    }

    /// The producer offers a chunk of `len` bytes.
    pub fn offer(&mut self, len: u64) -> (r: Offer)
        requires
            old(self).wf(),
        ensures
            final(self).wf(),
            final(self).is_closed() == old(self).is_closed(),
            final(self).received() == old(self).received(),
            old(self).is_closed() ==> r == Offer::Closed,
            !old(self).is_closed() && old(self).sent().len() > old(self).received().len()
                ==> r == Offer::Full,
            !old(self).is_closed() && old(self).sent().len() == old(self).received().len()
                ==> r == Offer::Accepted,
            r == Offer::Accepted ==> final(self).sent() == old(self).sent().push(len),
            r != Offer::Accepted ==> final(self).sent() == old(self).sent(),
    {
        if self.closed {
            Offer::Closed
        } else if self.slot.is_some() {
            Offer::Full
        } else {
            self.slot = Some(len);
            self.sent = Ghost(self.sent@.push(len));
            Offer::Accepted
        }
    }

    /// The consumer takes the waiting chunk, if there is one.
    pub fn take(&mut self) -> (r: Option<u64>)
        requires
            old(self).wf(),
        ensures
            final(self).wf(),
            final(self).is_closed() == old(self).is_closed(),
            final(self).sent() == old(self).sent(),
            old(self).sent().len() == old(self).received().len() ==> r.is_none()
                && final(self).received() == old(self).received(),
            old(self).sent().len() > old(self).received().len() ==> r == Some(
                old(self).sent().last(),
            ) && final(self).received() == old(self).sent(),
    {
        match self.slot.take() {
            Some(x) => {
                self.received = Ghost(self.received@.push(x));
                Some(x)
            },
            None => None,
        }
    }

    /// The consumer stops: every later offer is refused.
    pub fn close(&mut self)
        requires
            old(self).wf(),
        ensures
            final(self).wf(),
            final(self).is_closed(),
            final(self).sent() == old(self).sent(),
            final(self).received() == old(self).received(),
    {
        self.closed = true;
    }
}

/// At every point, the producer is at most one chunk ahead of the consumer,
/// and the consumer has seen exactly the chunks sent, in order, with no loss
/// or duplication.
pub proof fn lemma_at_most_one_in_flight(h: &ChunkHandoff)
    requires
        h.wf(),
    ensures
        h.sent().len() - h.received().len() <= 1,
        h.received() == h.sent().take(h.received().len() as int),
{
    assert(h.received() =~= h.sent().take(h.received().len() as int));
}

} // verus!
