use vstd::prelude::*;
use crate::outcome::Outcome;
use crate::progress::{after_chunk, final_outcome, seq_sum, ChunkStep, ProgressAggregator};
use crate::rate::saturate;

verus! {

/// Milliseconds to wait for a response before giving up.
pub const CONNECT_TIMEOUT_MS: u64 = 10000;

/// Milliseconds that the body transfer may take, counted from its start.
pub const TRANSFER_DEADLINE_MS: u64 = 60000;

/// Whether an HTTP status code means success (200 to 299).
pub open spec fn spec_is_success(code: u16) -> bool {
    200 <= code && code < 300
}

/// Whether `code` is a success status.
pub fn is_success_status(code: u16) -> (r: bool)
    ensures
        r == spec_is_success(code),
{
    200 <= code && code < 300
}

/// Whether a byte is an ASCII decimal digit.
pub open spec fn is_digit(b: u8) -> bool {
    48 <= b && b <= 57
}

/// The value of a string of decimal digits.
pub open spec fn digits_value(s: Seq<u8>) -> nat
    decreases s.len(),
{
    if s.len() == 0 {
        0
    } else {
        digits_value(s.drop_last()) * 10 + ((s.last() - 48) as nat)
    }
}

/// The digits of a header value: the value with one leading `+` removed.
pub open spec fn unsigned_digits(b: Seq<u8>) -> Seq<u8> {
    if b.len() > 0 && b[0] == 43 {
        b.drop_first()
    } else {
        b
    }
}

/// The size hint carried by a content-length value: an optional `+` and at
/// least one decimal digit, nothing else, with a value that fits a `u64`.
/// Anything else gives no hint.
pub open spec fn spec_content_length(b: Seq<u8>) -> Option<u64> {
    let d = unsigned_digits(b);
    if d.len() > 0 && (forall|i: int| 0 <= i < d.len() ==> is_digit(#[trigger] d[i]))
        && digits_value(d) <= u64::MAX {
        Some(digits_value(d) as u64)
    } else {
        None
    }
}

proof fn lemma_digits_value_step(d: Seq<u8>, i: int)
    requires
        0 <= i < d.len(),
    ensures
        digits_value(d.take(i + 1)) == digits_value(d.take(i)) * 10 + ((d[i] - 48) as nat),
{
    assert(d.take(i + 1).drop_last() =~= d.take(i));
}

proof fn lemma_digits_value_grows(d: Seq<u8>, i: int, j: int)
    requires
        0 <= i <= j <= d.len(),
    ensures
        digits_value(d.take(i)) <= digits_value(d.take(j)),
    decreases j - i,
{
    if i < j {
        lemma_digits_value_grows(d, i, j - 1);
        lemma_digits_value_step(d, j - 1);
    }
}

/// Reads the expected total size from a content-length header value.
pub fn parse_content_length(b: &[u8]) -> (r: Option<u64>)
    ensures
        r == spec_content_length(b@),
{
    let start: usize = if b.len() > 0 && b[0] == 43 { 1 } else { 0 };
    let ghost d = unsigned_digits(b@);
    assert(d =~= b@.subrange(start as int, b@.len() as int));
    if start == b.len() {
        return None;
    }
    let mut acc: u64 = 0;
    let mut i: usize = start;
    while i < b.len()
        invariant
            start <= i <= b.len(),
            d == b@.subrange(start as int, b@.len() as int),
            d == unsigned_digits(b@),
            forall|k: int| 0 <= k < i - start ==> is_digit(#[trigger] d[k]),
            acc as nat == digits_value(d.take(i - start)),
        decreases b.len() - i,
    {
        let c = b[i];
        if c < 48 || c > 57 {
            assert(d[i - start] == c);
            assert(!is_digit(d[i - start]));
            assert(!(forall|k: int| 0 <= k < d.len() ==> is_digit(#[trigger] d[k])));
            return None;
        }
        proof {
            lemma_digits_value_step(d, i - start);
        }
        let next = match acc.checked_mul(10) {
            Some(m) => m.checked_add((c - 48) as u64),
            None => None,
        };
        match next {
            Some(n) => {
                acc = n;
            },
            None => {
                proof {
                    assert(d[i - start] == c);
                    assert(digits_value(d.take(i - start + 1)) > u64::MAX);
                    lemma_digits_value_grows(d, i - start + 1, d.len() as int);
                    assert(d.take(d.len() as int) =~= d);
                }
                return None;
            },
        }
        i = i + 1;
    }
    assert(d.take(i - start) =~= d);
    Some(acc)
}

/// The size hint of an optional content-length header value.
pub open spec fn hint_of(content_length: Option<Vec<u8>>) -> Option<u64> {
    match content_length {
        Some(v) => spec_content_length(v@),
        None => None,
    }
}

/// Limits of one probe, in milliseconds.
#[derive(Debug, Clone, Copy, PartialEq, Eq)]
pub struct ProbeConfig {
    /// How long to wait for a response.
    pub connect_timeout_ms: u64,
    /// How long the body transfer may take once it started.
    pub transfer_deadline_ms: u64,
}

impl ProbeConfig {
    /// The standard limits: ten seconds to respond, sixty to transfer.
    pub fn standard() -> (r: Self)
        ensures
            r.connect_timeout_ms == CONNECT_TIMEOUT_MS,
            r.transfer_deadline_ms == TRANSFER_DEADLINE_MS,
    {
        ProbeConfig { connect_timeout_ms: CONNECT_TIMEOUT_MS, transfer_deadline_ms: TRANSFER_DEADLINE_MS }
    }
}

/// What happened since the probe's last step.
#[derive(Debug, Clone, PartialEq, Eq)]
pub enum ProbeEvent {
    /// No response within the connect timeout.
    ConnectTimedOut,
    /// Sending the request failed before a response arrived.
    RequestFailed(String),
    /// A response arrived, with its status code and content-length value.
    Responded { status: u16, content_length: Option<Vec<u8>> },
    /// A body chunk of `len` bytes arrived `elapsed_ms` after the transfer started.
    Chunk { len: u64, elapsed_ms: u64 },
    /// Reading the body failed.
    BodyFailed(String),
    /// The body ended `elapsed_ms` after the transfer started.
    BodyEnded { elapsed_ms: u64 },
}

/// What the driver of the probe does next.
#[derive(Debug, Clone, PartialEq, Eq)]
pub enum ProbeAction {
    /// Start the transfer clock and read the body.
    ReadBody { expected_total: Option<u64> },
    /// Show progress, then read the next chunk.
    Progress { bytes: u64, expected_total: Option<u64> },
    /// The probe is over.
    Finish(Outcome),
}

/// Where a probe stands.
#[derive(Debug, Clone, Copy, PartialEq, Eq)]
pub enum Phase {
    /// The request is out; no response yet.
    AwaitingResponse,
    /// The body is being read.
    Streaming,
    /// The outcome is settled.
    Done,
}

/// The decisions of one download: waits for the response, checks its
/// status, counts the body under the transfer deadline, and settles on one
/// outcome.
pub struct DownloadProbe {
    phase: Phase,
    deadline_ms: u64,
    progress: ProgressAggregator,
    outcome: Outcome,
}

impl DownloadProbe {
    /// Where the probe stands.
    pub closed spec fn phase(&self) -> Phase {
        self.phase
    }

    /// The transfer deadline in milliseconds.
    pub closed spec fn deadline(&self) -> u64 {
        self.deadline_ms
    }

    /// The body chunks counted so far.
    pub closed spec fn accepted(&self) -> Seq<u64> {
        self.progress.accepted()
    }

    /// Whether the transfer deadline has passed.
    pub closed spec fn timed_out(&self) -> bool {
        self.progress.timed_out()
    }

    /// The size hint taken from the response.
    pub closed spec fn hint(&self) -> Option<u64> {
        self.progress.hint()
    }

    /// The outcome, once the probe is done.
    pub closed spec fn outcome(&self) -> Outcome {
        self.outcome
    }

    spec fn counters_agree(&self) -> bool {
        &&& self.progress.wf()
        &&& self.progress.deadline() == self.deadline_ms
    }

    /// The counters agree, and a probe still streaming has not passed its
    /// deadline.
    pub closed spec fn wf(&self) -> bool {
        &&& self.counters_agree()
        &&& self.phase == Phase::Streaming ==> !self.progress.timed_out()
    }

    /// A probe waiting for its response.
    pub fn new(config: ProbeConfig) -> (r: Self)
        ensures
            r.wf(),
            r.phase() == Phase::AwaitingResponse,
            r.deadline() == config.transfer_deadline_ms,
            r.accepted() == Seq::<u64>::empty(),
    {
        DownloadProbe {
            phase: Phase::AwaitingResponse,
            deadline_ms: config.transfer_deadline_ms,
            progress: ProgressAggregator::new(None, config.transfer_deadline_ms),
            outcome: Outcome::RateUnavailable,
        }
    }

    /// Whether the probe is over.
    pub fn is_done(&self) -> (r: bool)
        ensures
            r == (self.phase() == Phase::Done),
    {
        match self.phase {
            Phase::Done => true,
            _ => false,
        }
    }

    fn settle(&mut self, o: Outcome) -> (r: ProbeAction)
        requires
            old(self).counters_agree(),
        ensures
            final(self).wf(),
            final(self).phase() == Phase::Done,
            final(self).outcome() == o,
            final(self).deadline() == old(self).deadline(),
            final(self).accepted() == old(self).accepted(),
            final(self).timed_out() == old(self).timed_out(),
            final(self).hint() == old(self).hint(),
            r == ProbeAction::Finish(o),
    {
        self.phase = Phase::Done;
        self.outcome = o.duplicate();
        ProbeAction::Finish(o)
    }

    /// Takes one event and decides what comes next. An event that cannot
    /// come in the current phase (a body event before the response, a
    /// response while streaming) ends the probe with a transport error; once
    /// done, the probe keeps its outcome.
    pub fn step(&mut self, ev: ProbeEvent) -> (r: ProbeAction)
        requires
            old(self).wf(),
        ensures
            final(self).wf(),
            final(self).deadline() == old(self).deadline(),
            old(self).phase() == Phase::Done ==> r == ProbeAction::Finish(old(self).outcome())
                && final(self).phase() == Phase::Done && final(self).outcome() == old(self).outcome(),
            old(self).phase() != Phase::Done && final(self).phase() == Phase::Done
                ==> r == ProbeAction::Finish(final(self).outcome()),
            old(self).phase() == Phase::AwaitingResponse ==> match ev {
                ProbeEvent::ConnectTimedOut => r == ProbeAction::Finish(Outcome::ConnectTimeout)
                    && final(self).phase() == Phase::Done,
                ProbeEvent::RequestFailed(d) => r == ProbeAction::Finish(Outcome::TransportError(d))
                    && final(self).phase() == Phase::Done,
                ProbeEvent::Responded { status, content_length } => if spec_is_success(status) {
                    &&& r == ProbeAction::ReadBody { expected_total: hint_of(content_length) }
                    &&& final(self).phase() == Phase::Streaming
                    &&& final(self).accepted() == Seq::<u64>::empty()
                    &&& final(self).hint() == hint_of(content_length)
                } else {
                    r == ProbeAction::Finish(Outcome::BadStatus(status)) && final(self).phase() == Phase::Done
                },
                _ => final(self).phase() == Phase::Done && r is Finish
                    && r->Finish_0 is TransportError,
            },
            old(self).phase() == Phase::Streaming ==> match ev {
                ProbeEvent::Chunk { len, elapsed_ms } => {
                    &&& (final(self).accepted(), final(self).timed_out()) == after_chunk(
                        old(self).accepted(),
                        false,
                        old(self).deadline() as nat,
                        len,
                        elapsed_ms as nat,
                    )
                    &&& final(self).hint() == old(self).hint()
                    &&& if final(self).timed_out() {
                        r == ProbeAction::Finish(Outcome::TransferTimeout)
                            && final(self).phase() == Phase::Done
                    } else {
                        r == ProbeAction::Progress {
                            bytes: saturate(seq_sum(final(self).accepted())),
                            expected_total: old(self).hint(),
                        } && final(self).phase() == Phase::Streaming
                    }
                },
                ProbeEvent::BodyEnded { elapsed_ms } => r == ProbeAction::Finish(
                    final_outcome(old(self).accepted(), false, elapsed_ms as nat),
                ) && final(self).phase() == Phase::Done,
                ProbeEvent::BodyFailed(d) => r == ProbeAction::Finish(Outcome::TransportError(d))
                    && final(self).phase() == Phase::Done,
                _ => final(self).phase() == Phase::Done && r is Finish
                    && r->Finish_0 is TransportError,
            },
    {
        match self.phase {
            Phase::Done => ProbeAction::Finish(self.outcome.duplicate()),
            Phase::AwaitingResponse => match ev {
                ProbeEvent::ConnectTimedOut => self.settle(Outcome::ConnectTimeout),
                ProbeEvent::RequestFailed(d) => self.settle(Outcome::TransportError(d)),
                ProbeEvent::Responded { status, content_length } => {
                    if is_success_status(status) {
                        let hint = match &content_length {
                            Some(v) => parse_content_length(v.as_slice()),
                            None => None,
                        };
                        self.progress = ProgressAggregator::new(hint, self.deadline_ms);
                        self.phase = Phase::Streaming;
                        ProbeAction::ReadBody { expected_total: hint }
                    } else {
                        self.settle(Outcome::BadStatus(status))
                    }
                },
                _ => self.settle(Outcome::TransportError("body data before any response".to_owned())),
            },
            Phase::Streaming => match ev {
                ProbeEvent::Chunk { len, elapsed_ms } => {
                    match self.progress.on_chunk(len, elapsed_ms) {
                        ChunkStep::DeadlineExceeded => self.settle(Outcome::TransferTimeout),
                        ChunkStep::Accepted(bytes) => ProbeAction::Progress {
                            bytes,
                            expected_total: self.progress.expected_total(),
                        },
                    }
                },
                ProbeEvent::BodyEnded { elapsed_ms } => {
                    let o = self.progress.finish(elapsed_ms);
                    self.settle(o)
                },
                ProbeEvent::BodyFailed(d) => self.settle(Outcome::TransportError(d)),
                _ => self.settle(Outcome::TransportError("a second response while reading the body".to_owned())),
            },
        }
    }
}

} // verus!
