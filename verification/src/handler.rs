//! Building the candidate path and the HTTP response.

use vstd::prelude::*;

use crate::segment::DecodeError;
use crate::segment::PathSegment;
use crate::segment::has_dotdot;
use crate::segment::pct_decoded;
use crate::segment::spec_from_raw;

verus! {

/// The candidate path for a request: `converted/{dir}/{name}`, with literal
/// forward slashes and no normalization.
pub open spec fn path_of(dir: Seq<char>, name: Seq<char>) -> Seq<char> {
    "converted/"@ + dir + "/"@ + name
}

/// What a request's two raw segments yield: the candidate path when both
/// decode and neither decoded text contains `..`, and otherwise the error of
/// the first segment that fails (`dir` is checked before `name`).
pub open spec fn spec_target_path(dir_raw: Seq<char>, name_raw: Seq<char>) -> Result<
    Seq<char>,
    DecodeError,
> {
    match spec_from_raw(dir_raw) {
        Result::Err(e) => Result::Err(e),
        Result::Ok(dir) => match spec_from_raw(name_raw) {
            Result::Err(e) => Result::Err(e),
            Result::Ok(name) => Result::Ok(path_of(dir, name)),
        },
    }
}

/// Decode and validate both raw segments and build the candidate path.
pub fn target_path(dir_raw: &str, name_raw: &str) -> (r: Result<String, DecodeError>)
    ensures
        match r {
            Ok(p) => spec_target_path(dir_raw@, name_raw@) == Result::<
                Seq<char>,
                DecodeError,
            >::Ok(p@),
            Err(e) => spec_target_path(dir_raw@, name_raw@) == Result::<
                Seq<char>,
                DecodeError,
            >::Err(e),
        },
        (!dir_raw@.contains('%') && !name_raw@.contains('%')) ==> match r {
            Ok(p) => p@ == path_of(dir_raw@, name_raw@) && !has_dotdot(dir_raw@) && !has_dotdot(
                name_raw@,
            ),
            Err(e) => e == DecodeError::TraversalDetected && (has_dotdot(dir_raw@) || has_dotdot(
                name_raw@,
            )),
        },
{
    let dir = match PathSegment::from_raw(dir_raw) {
        Ok(seg) => seg,
        Err(e) => {
            return Err(e);
        },
    };
    let name = match PathSegment::from_raw(name_raw) {
        Ok(seg) => seg,
        Err(e) => {
            return Err(e);
        },
    };
    let mut p = String::from_str("converted/");
    p.append(dir.as_str());
    p.append("/");
    p.append(name.as_str());
    proof {
        assert(p@ =~= path_of(dir@, name@));
    }
    Ok(p)
}

/// Law: a request one of whose decoded segments contains `..` never yields
/// a candidate path, so no file is ever read for it.
pub proof fn lemma_traversal_never_yields_path(dir_raw: Seq<char>, name_raw: Seq<char>)
    requires
        (pct_decoded(dir_raw) matches Some(d) && has_dotdot(d)) || (pct_decoded(name_raw)
            matches Some(n) && has_dotdot(n)),
    ensures
        spec_target_path(dir_raw, name_raw) is Err,
{
}

/// Law: every candidate path lies under `converted/`: it starts with that
/// prefix, and both decoded segments it is built from are free of `..`.
pub proof fn lemma_path_under_converted(dir_raw: Seq<char>, name_raw: Seq<char>, p: Seq<char>)
    requires
        spec_target_path(dir_raw, name_raw) == Result::<Seq<char>, DecodeError>::Ok(p),
    ensures
        exists|d: Seq<char>, n: Seq<char>|
            pct_decoded(dir_raw) == Some(d) && pct_decoded(name_raw) == Some(n) && !has_dotdot(d)
                && !has_dotdot(n) && p == path_of(d, n),
        p.len() >= "converted/"@.len(),
        p.subrange(0, "converted/"@.len() as int) == "converted/"@,
{
    let d = spec_from_raw(dir_raw)->Ok_0;
    let n = spec_from_raw(name_raw)->Ok_0;
    assert(pct_decoded(dir_raw) == Some(d) && pct_decoded(name_raw) == Some(n) && !has_dotdot(d)
        && !has_dotdot(n) && p == path_of(d, n));
    assert(p.subrange(0, "converted/"@.len() as int) =~= "converted/"@);
}

/// The fixed body of every failure response.
pub open spec fn not_found_body() -> Seq<char> {
    "Page not found :("@
}

/// An HTTP response: a status code and a body, always served with the fixed
/// header `Content-Type: text/html`.
pub struct Response {
    pub status: u16,
    pub body: String,
}

/// The response owed for a given read outcome: the file's contents with
/// status 200 when the read succeeded, and the fixed not-found body with
/// status 404 when it did not.
pub open spec fn response_matches(read: Option<Seq<char>>, status: int, body: Seq<char>) -> bool {
    match read {
        Option::Some(contents) => status == 200 && body == contents,
        Option::None => status == 404 && body == not_found_body(),
    }
}

impl Response {
    /// The value of the fixed `Content-Type` header.
    pub fn content_type(&self) -> (r: &str)
        ensures
            r@ == "text/html"@,
    {
        "text/html"
    }
}

/// Turn the outcome of reading the target file into the response: `Some`
/// carries the file's contents, `None` stands for every failure (a missing
/// or unreadable file, or a segment that was refused before any read).
pub fn respond(read_result: Option<String>) -> (r: Response)
    ensures
        response_matches(read_result.deep_view(), r.status as int, r.body@),
{
    match read_result {
        Some(contents) => Response { status: 200, body: contents },
        None => Response { status: 404, body: String::from_str("Page not found :(") },
    }
}

/// Law: the response is a function of the read outcome alone, so repeated
/// identical requests against an unchanged filesystem get identical
/// responses: any two responses owed for the same read outcome are equal.
pub proof fn lemma_identical_requests_identical_responses(
    read: Option<Seq<char>>,
    status1: int,
    body1: Seq<char>,
    status2: int,
    body2: Seq<char>,
)
    requires
        response_matches(read, status1, body1),
        response_matches(read, status2, body2),
    ensures
        status1 == status2,
        body1 == body2,
{
}

} // verus!
