use vstd::prelude::*;

verus! {

/// Throughput in bytes per second of `bytes` delivered over `elapsed_ms`
/// milliseconds: `floor(bytes * 1000 / elapsed_ms)`, and no value at all when
/// no time has passed.
pub open spec fn spec_rate(bytes: nat, elapsed_ms: nat) -> Option<nat> {
    if elapsed_ms == 0 {
        None
    } else {
        Some((bytes * 1000) / elapsed_ms)
    }
}

/// A natural number held in a `u64`, saturating at `u64::MAX`.
pub open spec fn saturate(n: nat) -> u64 {
    if n <= u64::MAX {
        n as u64
    } else {
        u64::MAX
    }
}

/// Computes the transfer rate in bytes per second; `None` means the rate is
/// unavailable because no time elapsed.
pub fn compute_rate(bytes: u64, elapsed_ms: u64) -> (r: Option<u64>)
    ensures
        r.is_none() <==> elapsed_ms == 0,
        elapsed_ms > 0 ==> r == Some(saturate(spec_rate(bytes as nat, elapsed_ms as nat)->0)),
{
    if elapsed_ms == 0 {
        None
    } else {
        assert((bytes as nat) * 1000 <= u64::MAX as nat * 1000) by (nonlinear_arith)
            requires bytes <= u64::MAX;
        let scaled: u128 = (bytes as u128) * 1000;
        let q: u128 = scaled / (elapsed_ms as u128);
        if q > u64::MAX as u128 {
            Some(u64::MAX)
        } else {
            Some(q as u64)
        }
    }
}

} // verus!
