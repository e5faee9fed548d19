use vstd::prelude::*;
use crate::outcome::Outcome;
use crate::rate::{compute_rate, saturate, spec_rate};

verus! {

/// Sum of chunk sizes.
pub open spec fn seq_sum(s: Seq<u64>) -> nat
    decreases s.len(),
{
    if s.len() == 0 {
        0
    } else {
        seq_sum(s.drop_last()) + (s.last() as nat)
    }
}

/// The aggregator's state after one chunk of `len` bytes arrives at
/// `elapsed_ms`: the accepted chunks and whether the deadline has passed.
/// Once the deadline has passed no chunk is accepted any more.
pub open spec fn after_chunk(
    accepted: Seq<u64>,
    timed_out: bool,
    deadline_ms: nat,
    len: u64,
    elapsed_ms: nat,
) -> (Seq<u64>, bool) {
    if timed_out || elapsed_ms > deadline_ms {
        (accepted, true)
    } else {
        (accepted.push(len), false)
    }
}

/// The aggregator's state after the arrivals `events`, each a chunk size and
/// the elapsed milliseconds at its arrival, in order.
pub open spec fn after_chunks(
    accepted: Seq<u64>,
    timed_out: bool,
    deadline_ms: nat,
    events: Seq<(u64, u64)>,
) -> (Seq<u64>, bool)
    decreases events.len(),
{
    if events.len() == 0 {
        (accepted, timed_out)
    } else {
        let prev = after_chunks(accepted, timed_out, deadline_ms, events.drop_last());
        after_chunk(prev.0, prev.1, deadline_ms, events.last().0, events.last().1 as nat)
    }
}

/// The outcome reported when the stream ends at `elapsed_ms` after the chunks
/// `accepted` were taken in.
pub open spec fn final_outcome(accepted: Seq<u64>, timed_out: bool, elapsed_ms: nat) -> Outcome {
    if timed_out {
        Outcome::TransferTimeout
    } else {
        match spec_rate(saturate(seq_sum(accepted)) as nat, elapsed_ms) {
            None => Outcome::RateUnavailable,
            Some(r) => Outcome::Speed(saturate(r)),
        }
    }
}

/// The chunk sizes of a sequence of arrivals.
pub open spec fn chunk_sizes(events: Seq<(u64, u64)>) -> Seq<u64> {
    events.map_values(|e: (u64, u64)| e.0)
}

/// Arrivals that all come no later than the deadline are all counted, in order.
pub proof fn lemma_all_counted_before_deadline(deadline_ms: nat, events: Seq<(u64, u64)>)
    requires
        forall|i: int| 0 <= i < events.len() ==> events[i].1 <= deadline_ms,
    ensures
        after_chunks(Seq::empty(), false, deadline_ms, events) == (chunk_sizes(events), false),
    decreases events.len(),
{
    if events.len() > 0 {
        let prefix = events.drop_last();
        lemma_all_counted_before_deadline(deadline_ms, prefix);
        assert(chunk_sizes(events) =~= chunk_sizes(prefix).push(events.last().0));
    }
}

/// For chunks summing to `B` bytes, all arriving within the deadline, and a
/// stream that ends `T > 0` milliseconds after the transfer started, the
/// reported rate is exactly `floor(B * 1000 / T)` (whenever that fits a `u64`).
pub proof fn lemma_rate_of_stream(deadline_ms: nat, events: Seq<(u64, u64)>, end_ms: nat)
    requires
        forall|i: int| 0 <= i < events.len() ==> events[i].1 <= deadline_ms,
        end_ms > 0,
        seq_sum(chunk_sizes(events)) <= u64::MAX,
        (seq_sum(chunk_sizes(events)) * 1000) / end_ms <= u64::MAX,
    ensures
        ({
            let st = after_chunks(Seq::empty(), false, deadline_ms, events);
            final_outcome(st.0, st.1, end_ms) == Outcome::Speed(
                ((seq_sum(chunk_sizes(events)) * 1000) / end_ms) as u64,
            )
        }),
{
    lemma_all_counted_before_deadline(deadline_ms, events);
}

/// A stream that ends with no time elapsed, and within the deadline, reports
/// the rate as unavailable, never a number.
pub proof fn lemma_zero_time_unavailable(deadline_ms: nat, events: Seq<(u64, u64)>)
    requires
        forall|i: int| 0 <= i < events.len() ==> events[i].1 <= deadline_ms,
    ensures
        ({
            let st = after_chunks(Seq::empty(), false, deadline_ms, events);
            final_outcome(st.0, st.1, 0) == Outcome::RateUnavailable
        }),
{
    lemma_all_counted_before_deadline(deadline_ms, events);
}

/// Once an arrival comes after the deadline, the transfer has timed out and
/// the counted chunks are exactly those accepted before that arrival: nothing
/// after the crossing point is counted.
pub proof fn lemma_nothing_counted_after_deadline(
    accepted: Seq<u64>,
    timed_out: bool,
    deadline_ms: nat,
    events: Seq<(u64, u64)>,
    k: int,
)
    requires
        0 <= k < events.len(),
        events[k].1 > deadline_ms,
    ensures
        after_chunks(accepted, timed_out, deadline_ms, events) == (
            after_chunks(accepted, timed_out, deadline_ms, events.take(k)).0,
            true,
        ),
    decreases events.len(),
{
    let prefix = events.drop_last();
    if k == events.len() - 1 {
        assert(prefix =~= events.take(k));
    } else {
        assert(prefix[k] == events[k]);
        assert(prefix.take(k) =~= events.take(k));
        lemma_nothing_counted_after_deadline(accepted, timed_out, deadline_ms, prefix, k);
    }
}

/// A stream with an arrival past the deadline ends in a transfer timeout,
/// whenever it ends.
pub proof fn lemma_deadline_gives_timeout(
    deadline_ms: nat,
    events: Seq<(u64, u64)>,
    k: int,
    end_ms: nat,
)
    requires
        0 <= k < events.len(),
        events[k].1 > deadline_ms,
    ensures
        ({
            let st = after_chunks(Seq::empty(), false, deadline_ms, events);
            final_outcome(st.0, st.1, end_ms) == Outcome::TransferTimeout
        }),
{
    lemma_nothing_counted_after_deadline(Seq::empty(), false, deadline_ms, events, k);
}


/// What the consumer does with one arrived chunk.
#[derive(Debug, Clone, Copy, PartialEq, Eq)]
pub enum ChunkStep {
    /// The chunk was counted; the total received so far.
    Accepted(u64),
    /// The transfer deadline has passed: stop reading.
    DeadlineExceeded,
}

/// Consumer-side aggregate of one probe's transfer: bytes received, the
/// size hint, and the transfer deadline, checked on every arrival.
pub struct ProgressAggregator {
    bytes_received: u64,
    expected_total: Option<u64>,
    deadline_ms: u64,
    timed_out: bool,
    accepted: Ghost<Seq<u64>>,
}

impl ProgressAggregator {
    /// The chunks counted so far, in arrival order.
    pub closed spec fn accepted(&self) -> Seq<u64> {
        self.accepted@
    }

    /// Whether the deadline has passed.
    pub closed spec fn timed_out(&self) -> bool {
        self.timed_out
    }

    /// The transfer deadline in milliseconds.
    pub closed spec fn deadline(&self) -> u64 {
        self.deadline_ms
    }

    /// The expected total size, as hinted by the response.
    pub closed spec fn hint(&self) -> Option<u64> {
        self.expected_total
    }

    /// The byte counter agrees with the counted chunks.
    pub closed spec fn wf(&self) -> bool {
        self.bytes_received == saturate(seq_sum(self.accepted@))
    }

    /// A fresh aggregator with nothing received.
    pub fn new(expected_total: Option<u64>, deadline_ms: u64) -> (r: Self)
        ensures
            r.wf(),
            r.accepted() == Seq::<u64>::empty(),
            !r.timed_out(),
            r.deadline() == deadline_ms,
            r.hint() == expected_total,
    {
        ProgressAggregator {
            bytes_received: 0,
            expected_total,
            deadline_ms,
            timed_out: false,
            accepted: Ghost(Seq::empty()),
        }
    }

    /// Bytes received so far (saturating at `u64::MAX`).
    pub fn bytes_received(&self) -> (r: u64)
        requires
            self.wf(),
        ensures
            r == saturate(seq_sum(self.accepted())),
    {
        self.bytes_received
    }

    /// The expected total size, if the response gave one.
    pub fn expected_total(&self) -> (r: Option<u64>)
        ensures
            r == self.hint(),
    {
        self.expected_total
    }

    /// Whether the deadline has passed.
    pub fn is_timed_out(&self) -> (r: bool)
        ensures
            r == self.timed_out(),
    {
        self.timed_out
    }

    /// Takes in a chunk of `len` bytes that arrived `elapsed_ms` after the
    /// transfer started. Past the deadline the chunk is not counted and the
    /// consumer is told to stop.
    pub fn on_chunk(&mut self, len: u64, elapsed_ms: u64) -> (r: ChunkStep)
        requires
            old(self).wf(),
        ensures
            final(self).wf(),
            (final(self).accepted(), final(self).timed_out()) == after_chunk(
                old(self).accepted(),
                old(self).timed_out(),
                old(self).deadline() as nat,
                len,
                elapsed_ms as nat,
            ),
            final(self).deadline() == old(self).deadline(),
            final(self).hint() == old(self).hint(),
            r == (if final(self).timed_out() {
                ChunkStep::DeadlineExceeded
            } else {
                ChunkStep::Accepted(saturate(seq_sum(final(self).accepted())))
            }),
    {
        if self.timed_out || elapsed_ms > self.deadline_ms {
            self.timed_out = true;
            ChunkStep::DeadlineExceeded
        } else {
            let ghost prev = self.accepted@;
            self.accepted = Ghost(prev.push(len));
            assert(self.accepted@.drop_last() == prev);
            self.bytes_received = self.bytes_received.saturating_add(len);
            ChunkStep::Accepted(self.bytes_received)
        }
    }

    /// The outcome when the body ends `elapsed_ms` after the transfer started.
    pub fn finish(&self, elapsed_ms: u64) -> (r: Outcome)
        requires
            self.wf(),
        ensures
            r == final_outcome(self.accepted(), self.timed_out(), elapsed_ms as nat),
    {
        if self.timed_out {
            Outcome::TransferTimeout
        } else {
            match compute_rate(self.bytes_received, elapsed_ms) {
                None => Outcome::RateUnavailable,
                Some(r) => Outcome::Speed(r),
            }
        }
    }
}

} // verus!
