use vstd::prelude::*;

verus! {

/// The terminal result of probing one target.
#[derive(Debug, Clone, PartialEq, Eq)]
pub enum Outcome {
    /// The body was read to its end; the achieved rate in bytes per second.
    Speed(u64),
    /// The body was read to its end, but no time elapsed, so no rate exists.
    RateUnavailable,
    /// No response arrived within the connect timeout.
    ConnectTimeout,
    /// The transfer deadline passed before the body ended.
    TransferTimeout,
    /// A response arrived with a status outside 200..=299; the body was not read.
    BadStatus(u16),
    /// Sending the request or reading the body failed.
    TransportError(String),
    /// The method or URI could not form a request.
    RequestBuildError(String),
}

/// The rate that an outcome reports, if any.
pub open spec fn spec_outcome_speed(o: Outcome) -> Option<u64> {
    match o {
        Outcome::Speed(r) => Some(r),
        _ => None,
    }
}

impl Outcome {
    /// The rate in bytes per second, or `None` for an unavailable rate and for
    /// every failure.
    pub fn speed(&self) -> (r: Option<u64>)
        ensures
            r == spec_outcome_speed(*self),
    {
        match self {
            Outcome::Speed(r) => Some(*r),
            _ => None,
        }
    }

    /// A copy of this outcome, equal to it.
    pub fn duplicate(&self) -> (r: Outcome)
        ensures
            r == *self,
    {
        match self {
            Outcome::Speed(r) => Outcome::Speed(*r),
            Outcome::RateUnavailable => Outcome::RateUnavailable,
            Outcome::ConnectTimeout => Outcome::ConnectTimeout,
            Outcome::TransferTimeout => Outcome::TransferTimeout,
            Outcome::BadStatus(c) => Outcome::BadStatus(*c),
            Outcome::TransportError(d) => Outcome::TransportError(d.clone()),
            Outcome::RequestBuildError(d) => Outcome::RequestBuildError(d.clone()),
        }
    }

    /// Whether the probe failed (as opposed to reading the whole body).
    pub fn is_failure(&self) -> (r: bool)
        ensures
            r == !(*self is Speed || *self is RateUnavailable),
    {
        match self {
            Outcome::Speed(_) => false,
            Outcome::RateUnavailable => false,
            _ => true,
        }
    }
}

} // verus!
