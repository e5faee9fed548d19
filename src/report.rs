use vstd::prelude::*;
use vstd::string::StringExecFns;

verus! {

broadcast use vstd::seq_lib::group_to_multiset_ensures;

#[verifier::external_type_specification]
#[verifier::external_body]
pub struct ExUri(http::Uri);

/// One row of the summary: the probed URI and its speed in bytes per second,
/// `None` when the probe failed or no rate was available.
#[derive(Debug, PartialEq, Eq)]
pub struct TestData {
    pub uri: http::Uri,
    pub speed: Option<u64>,
}

/// The text that humansize gives a byte count in binary units.
pub uninterp spec fn binary_size_text(n: u64) -> Seq<char>;

/// Relies on humansize::format_size with the humansize::BINARY options: the
/// count written in binary units ("2 MiB"), a function of the count alone.
#[verifier::external_body]
fn format_binary_size(n: u64) -> (r: String)
    ensures
        r@ == binary_size_text(n),
{
    humansize::format_size(n, humansize::BINARY)
}

/// The per-second suffix.
pub open spec fn per_second_suffix() -> Seq<char> {
    seq!['/', 's']
}

/// The text shown for a missing speed.
pub open spec fn unknown_speed_text() -> Seq<char> {
    seq!['N', '/', 'A']
}

/// The text shown for a speed.
pub open spec fn speed_text(speed: Option<u64>) -> Seq<char> {
    match speed {
        Some(s) => binary_size_text(s) + per_second_suffix(),
        None => unknown_speed_text(),
    }
}

/// Turns a formatted size into a rate by appending "/s".
pub fn per_second(size: String) -> (r: String)
    ensures
        r@ == size@ + per_second_suffix(),
{
    let r = size.concat("/s");
    proof {
        reveal_strlit("/s");
    }
    assert("/s"@ =~= per_second_suffix());
    r
}

/// The text for a missing speed.
pub fn unknown_speed() -> (r: String)
    ensures
        r@ == unknown_speed_text(),
{
    let r = String::from_str("N/A");
    proof {
        reveal_strlit("N/A");
    }
    assert("N/A"@ =~= unknown_speed_text());
    r
}

/// The rank of a speed in the summary: a missing speed ranks below every
/// number.
pub open spec fn speed_rank(speed: Option<u64>) -> int {
    match speed {
        Some(s) => s as int,
        None => -1,
    }
}

/// Whether speed `a` ranks at least as high as speed `b`.
pub fn ranks_at_least(a: Option<u64>, b: Option<u64>) -> (r: bool)
    ensures
        r == (speed_rank(a) >= speed_rank(b)),
{
    match (a, b) {
        (_, None) => true,
        (None, Some(_)) => false,
        (Some(x), Some(y)) => x >= y,
    }
}

/// Rows ordered fastest first, missing speeds last.
pub open spec fn fastest_first(rows: Seq<TestData>) -> bool {
    forall|i: int, j: int|
        0 <= i < j < rows.len() ==> speed_rank(#[trigger] rows[i].speed) >= speed_rank(
            #[trigger] rows[j].speed,
        )
}

impl TestData {
    /// The summary row for a probe of `uri` that ended in `outcome`.
    pub fn from_outcome(uri: http::Uri, outcome: &crate::outcome::Outcome) -> (r: TestData)
        ensures
            r.uri == uri,
            r.speed == crate::outcome::spec_outcome_speed(*outcome),
    {
        TestData { uri, speed: outcome.speed() }
    }

    /// The speed as shown in the summary: binary units per second
    /// ("2 MiB/s"), or "N/A" when there is none.
    pub fn speed(&self) -> (r: String)
        ensures
            r@ == speed_text(self.speed),
    {
        match self.speed {
            Some(s) => per_second(format_binary_size(s)),
            None => unknown_speed(),
        }
    }
}

/// Orders the summary rows fastest first, with failed probes ("N/A") after
/// every measured one. The rows themselves are kept, each once.
pub fn sort_fastest_first(rows: Vec<TestData>) -> (r: Vec<TestData>)
    ensures
        r@.to_multiset() == rows@.to_multiset(),
        fastest_first(r@),
{
    let mut rest = rows;
    let mut out: Vec<TestData> = Vec::new();
    while rest.len() > 0
        invariant
            out@.to_multiset().add(rest@.to_multiset()) == rows@.to_multiset(),
            fastest_first(out@),
        decreases rest.len(),
    {
        let ghost before = rest@;
        let x = rest.pop().unwrap();
        proof {
            assert(before == rest@.push(x));
        }
        let mut j: usize = 0;
        while j < out.len() && ranks_at_least(out[j].speed, x.speed)
            invariant
                j <= out.len(),
                forall|k: int| 0 <= k < j ==> speed_rank(#[trigger] out@[k].speed) >= speed_rank(x.speed),
            decreases out.len() - j,
        {
            j = j + 1;
        }
        let ghost prev = out@;
        out.insert(j, x);
        proof {
            assert(out@ == prev.insert(j as int, x));
            assert(out@.to_multiset() == prev.to_multiset().insert(x));
            assert(out@.to_multiset().add(rest@.to_multiset()) =~= prev.to_multiset().add(
                before.to_multiset(),
            ));
            assert forall|a: int, b: int| 0 <= a < b < out@.len() implies speed_rank(
                #[trigger] out@[a].speed,
            ) >= speed_rank(#[trigger] out@[b].speed) by {
                if j < prev.len() {
                    assert(speed_rank(prev[j as int].speed) < speed_rank(x.speed));
                }
                if a < j && b > j {
                    assert(out@[b] == prev[b - 1]);
                } else if a == j && b > j {
                    assert(out@[b] == prev[b - 1]);
                    if b - 1 > j {
                        assert(speed_rank(prev[j as int].speed) >= speed_rank(prev[b - 1].speed));
                    }
                } else if a > j {
                    assert(out@[a] == prev[a - 1] && out@[b] == prev[b - 1]);
                }
            }
        }
    }
    assert(rest@ =~= Seq::<TestData>::empty());
    assert(out@.to_multiset().add(rest@.to_multiset()) =~= out@.to_multiset());
    out
}

} // verus!
