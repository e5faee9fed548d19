use vstd::prelude::*;
use vstd::slice::slice_subrange;

verus! {

#[verifier::external_type_specification]
#[verifier::external_body]
pub struct ExMethod(http::Method);

#[verifier::external_type_specification]
#[verifier::external_body]
pub struct ExInvalidMethod(http::method::InvalidMethod);

#[verifier::external_type_specification]
#[verifier::external_body]
pub struct ExInvalidUri(http::uri::InvalidUri);

/// Whether http accepts these bytes as a request method.
pub uninterp spec fn method_accepts(b: Seq<u8>) -> bool;

/// Whether http accepts these bytes as a URI.
pub uninterp spec fn uri_accepts(b: Seq<u8>) -> bool;

/// Relies on http::Method::from_bytes: whether a method is accepted depends
/// on its bytes alone, and an empty method is refused.
#[verifier::external_body]
fn method_from_bytes(b: &[u8]) -> (r: Result<http::Method, http::method::InvalidMethod>)
    ensures
        r is Ok == method_accepts(b@),
        b@.len() == 0 ==> r is Err,
{
    http::Method::from_bytes(b)
}

/// Relies on http::Uri's `TryFrom<&[u8]>`: whether a URI is accepted depends
/// on its bytes alone.
#[verifier::external_body]
fn uri_from_bytes(b: &[u8]) -> (r: Result<http::Uri, http::uri::InvalidUri>)
    ensures
        r is Ok == uri_accepts(b@),
{
    http::Uri::try_from(b)
}

/// Relies on http::Method::GET, the method of a line that names none.
#[verifier::external_body]
fn method_get() -> (r: http::Method) {
    http::Method::GET
}

/// A request to probe.
#[derive(Debug, PartialEq, Eq)]
pub struct Target {
    pub method: http::Method,
    pub uri: http::Uri,
}

/// Why a line of a target list was refused.
#[derive(Debug, Clone, Copy, PartialEq, Eq)]
pub enum LineError {
    /// The first of two fields is not a method.
    InvalidMethod,
    /// The URI field is not a URI.
    InvalidUri,
    /// A third field follows the URI.
    TrailingField,
}

/// The field separator, an ASCII space.
pub open spec fn is_space(b: u8) -> bool {
    b == 32
}

/// Lines that name no target: empty ones and comments (`#` or `//`).
pub open spec fn is_skipped(line: Seq<u8>) -> bool {
    ||| line.len() == 0
    ||| line[0] == 35
    ||| (line.len() >= 2 && line[0] == 47 && line[1] == 47)
}

/// The number of single spaces in a line.
pub open spec fn space_count(s: Seq<u8>) -> nat
    decreases s.len(),
{
    if s.len() == 0 {
        0
    } else {
        space_count(s.drop_last()) + if is_space(s.last()) { 1nat } else { 0nat }
    }
}

/// The position of the first space, or the length when there is none.
pub open spec fn first_space(s: Seq<u8>) -> int
    decreases s.len(),
{
    if s.len() == 0 {
        0
    } else if is_space(s[0]) {
        0
    } else {
        1 + first_space(s.drop_first())
    }
}

/// How a line of a target list is laid out.
#[derive(Debug, Clone, Copy, PartialEq, Eq)]
pub enum LineShape {
    /// Empty or a comment: no target.
    Skipped,
    /// One field, the URI.
    UriOnly,
    /// A method and a URI, parted by the space at this position.
    MethodAndUri(usize),
    /// More than two fields.
    TooManyFields,
}

/// The layout of a line: fields are parted by single spaces.
pub open spec fn spec_line_shape(line: Seq<u8>) -> LineShape {
    if is_skipped(line) {
        LineShape::Skipped
    } else if space_count(line) == 0 {
        LineShape::UriOnly
    } else if space_count(line) == 1 {
        LineShape::MethodAndUri(first_space(line) as usize)
    } else {
        LineShape::TooManyFields
    }
}

/// What a line gives: `Ok(false)` when it names no target, `Ok(true)` when
/// it names one, or why it was refused. A line is `<uri>` or
/// `<method> <uri>`.
pub open spec fn line_verdict(line: Seq<u8>) -> Result<bool, LineError> {
    match spec_line_shape(line) {
        LineShape::Skipped => Ok(false),
        LineShape::UriOnly => if uri_accepts(line) {
            Ok(true)
        } else {
            Err(LineError::InvalidUri)
        },
        LineShape::MethodAndUri(f) => if !method_accepts(line.take(f as int)) {
            Err(LineError::InvalidMethod)
        } else if !uri_accepts(line.skip(f + 1)) {
            Err(LineError::InvalidUri)
        } else {
            Ok(true)
        },
        LineShape::TooManyFields => Err(LineError::TrailingField),
    }
}

proof fn lemma_space_count_step(s: Seq<u8>, i: int)
    requires
        0 <= i < s.len(),
    ensures
        space_count(s.take(i + 1)) == space_count(s.take(i)) + if is_space(s[i]) { 1nat } else { 0nat },
{
    assert(s.take(i + 1).drop_last() =~= s.take(i));
}

proof fn lemma_first_space_at(s: Seq<u8>, f: int)
    requires
        0 <= f < s.len(),
        is_space(s[f]),
        forall|k: int| 0 <= k < f ==> !is_space(#[trigger] s[k]),
    ensures
        first_space(s) == f,
    decreases s.len(),
{
    if f > 0 {
        assert(forall|k: int| 0 <= k < s.drop_first().len() ==> s.drop_first()[k] == s[k + 1]);
        lemma_first_space_at(s.drop_first(), f - 1);
    }
}

/// Finds the layout of a line.
pub fn line_shape(line: &[u8]) -> (r: LineShape)
    ensures
        r == spec_line_shape(line@),
        r is MethodAndUri ==> r->MethodAndUri_0 < line@.len(),
{
    let n = line.len();
    if n == 0 || line[0] == 35 || (n >= 2 && line[0] == 47 && line[1] == 47) {
        return LineShape::Skipped;
    }
    let mut spaces: usize = 0;
    let mut first: usize = n;
    let mut i: usize = 0;
    while i < n
        invariant
            n == line@.len(),
            i <= n,
            spaces as nat == space_count(line@.take(i as int)),
            spaces <= i,
            spaces == 0 ==> first == n && forall|k: int| 0 <= k < i ==> !is_space(#[trigger] line@[k]),
            spaces > 0 ==> first < i && is_space(line@[first as int]) && forall|k: int|
                0 <= k < first ==> !is_space(#[trigger] line@[k]),
        decreases n - i,
    {
        proof {
            lemma_space_count_step(line@, i as int);
        }
        if line[i] == 32 {
            if spaces == 0 {
                first = i;
            }
            spaces = spaces + 1;
        }
        i = i + 1;
    }
    assert(line@.take(n as int) =~= line@);
    if spaces == 0 {
        LineShape::UriOnly
    } else if spaces == 1 {
        proof {
            lemma_first_space_at(line@, first as int);
        }
        LineShape::MethodAndUri(first)
    } else {
        LineShape::TooManyFields
    }
}

/// Reads one line of a target list.
pub fn parse_target_line(line: &[u8]) -> (r: Result<Option<Target>, LineError>)
    ensures
        match line_verdict(line@) {
            Ok(named) => r is Ok && (r->Ok_0 is Some == named),
            Err(e) => r == Err::<Option<Target>, LineError>(e),
        },
{
    let shape = line_shape(line);
    match shape {
        LineShape::Skipped => Ok(None),
        LineShape::UriOnly => match uri_from_bytes(line) {
            Ok(uri) => Ok(Some(Target { method: method_get(), uri })),
            Err(_) => Err(LineError::InvalidUri),
        },
        LineShape::TooManyFields => Err(LineError::TrailingField),
        LineShape::MethodAndUri(first) => {
            let n = line.len();
            let method_part = slice_subrange(line, 0, first);
            let uri_part = slice_subrange(line, first + 1, n);
            assert(method_part@ =~= line@.take(first as int));
            assert(uri_part@ =~= line@.skip(first + 1));
            let method = match method_from_bytes(method_part) {
                Ok(m) => m,
                Err(_) => {
                    return Err(LineError::InvalidMethod);
                },
            };
            match uri_from_bytes(uri_part) {
                Ok(uri) => Ok(Some(Target { method, uri })),
                Err(_) => Err(LineError::InvalidUri),
            }
        },
    }
}

/// A refused line of a target list: its number, counted from 1, and why.
#[derive(Debug, Clone, Copy, PartialEq, Eq)]
pub struct ListError {
    pub line: usize,
    pub error: LineError,
}

/// The number of lines that name a target.
pub open spec fn count_targets(lines: Seq<Vec<u8>>) -> nat
    decreases lines.len(),
{
    if lines.len() == 0 {
        0
    } else {
        count_targets(lines.drop_last()) + if line_verdict(lines.last()@) == Ok::<bool, LineError>(true) {
            1nat
        } else {
            0nat
        }
    }
}

/// Reads a target list, one line each: every line that names a target gives
/// one, in order; the first refused line ends the reading with its number.
pub fn parse_target_lines(lines: &Vec<Vec<u8>>) -> (r: Result<Vec<Target>, ListError>)
    ensures
        r is Ok <==> forall|i: int| 0 <= i < lines@.len() ==> line_verdict(#[trigger] lines@[i]@) is Ok,
        r is Ok ==> r->Ok_0@.len() == count_targets(lines@),
        r is Err ==> {
            let e = r->Err_0;
            &&& 1 <= e.line <= lines@.len()
            &&& forall|i: int| 0 <= i < e.line - 1 ==> line_verdict(#[trigger] lines@[i]@) is Ok
            &&& line_verdict(lines@[e.line - 1]@) == Err::<bool, LineError>(e.error)
        },
{
    let mut out: Vec<Target> = Vec::new();
    let mut i: usize = 0;
    while i < lines.len()
        invariant
            i <= lines@.len(),
            forall|k: int| 0 <= k < i ==> line_verdict(#[trigger] lines@[k]@) is Ok,
            out@.len() == count_targets(lines@.take(i as int)),
        decreases lines.len() - i,
    {
        proof {
            assert(lines@.take(i + 1).drop_last() =~= lines@.take(i as int));
        }
        match parse_target_line(lines[i].as_slice()) {
            Ok(Some(t)) => {
                out.push(t);
            },
            Ok(None) => {},
            Err(error) => {
                return Err(ListError { line: i + 1, error });
            },
        }
        i = i + 1;
    }
    assert(lines@.take(i as int) =~= lines@);
    Ok(out)
}

} // verus!
