//! Decoding and validation of one URL path segment.

use vstd::prelude::*;

verus! {

/// The result of percent-decoding a segment: `Some(decoded)` when every
/// `%XX` escape has been rewritten to its byte and the resulting bytes are
/// valid UTF-8, `None` when they are not. Named rather than written out:
/// the byte-level recovery rules for malformed escapes and the UTF-8
/// validity condition belong to `urlencoding::decode`, which computes it.
pub uninterp spec fn pct_decoded(s: Seq<char>) -> Option<Seq<char>>;

/// Why a raw segment was refused.
#[derive(Debug, Clone, Copy, PartialEq, Eq, Structural)]
pub enum DecodeError {
    /// The segment is not valid percent-encoded text: the decoded bytes do
    /// not form valid UTF-8.
    BadEncoding,
    /// The decoded segment contains the substring `..`, the path-traversal
    /// pattern; the request is refused.
    TraversalDetected,
}

/// The decoded text contains the substring `..` somewhere.
pub open spec fn has_dotdot(s: Seq<char>) -> bool {
    exists|i: int| 0 <= i && i + 1 < s.len() && #[trigger] s[i] == '.' && s[i + 1] == '.'
}

/// Scan a decoded segment for the literal substring `..`.
pub fn contains_dotdot(s: &str) -> (r: bool)
    ensures
        r == has_dotdot(s@),
{
    let len = s.unicode_len();
    if len < 2 {
        return false;
    }
    let mut i: usize = 0;
    while i + 1 < len
        invariant
            len == s@.len(),
            i + 1 <= len,
            forall|j: int| 0 <= j < i ==> !(#[trigger] s@[j] == '.' && s@[j + 1] == '.'),
        decreases len - i,
    {
        if s.get_char(i) == '.' && s.get_char(i + 1) == '.' {
            return true;
        }
        i += 1;
    }
    false
}

/// Relies on `urlencoding::decode`: it rewrites each valid `%XX` escape to
/// the byte it denotes, keeps every other byte (malformed escapes stay as
/// literal text, `+` is preserved), and fails exactly when the decoded bytes
/// are not valid UTF-8. An input without `%` comes back unchanged.
#[verifier::external_body]
fn decode_segment(raw: &str) -> (r: Option<String>)
    ensures
        match r {
            Some(d) => pct_decoded(raw@) == Some(d@) && (!raw@.contains('%') ==> d@ == raw@),
            None => pct_decoded(raw@) is None && raw@.contains('%'),
        },
{
    match urlencoding::decode(raw) {
        Ok(d) => Some(d.into_owned()),
        Err(_) => None,
    }
}

/// Relies on `urlencoding::encode`: it percent-encodes every byte except the
/// ASCII alphanumerics and `-`, `_`, `.`, `~`, producing only escapes that
/// `urlencoding::decode` maps back to the original bytes, so decoding its
/// result restores the input.
#[verifier::external_body]
fn encode_segment(s: &str) -> (r: String)
    ensures
        pct_decoded(r@) == Some(s@),
{
    urlencoding::encode(s).into_owned()
}

/// Percent-encoding a segment and decoding the result gives the original
/// text back, for every input.
pub fn percent_round_trip(s: &str) -> (r: String)
    ensures
        r@ == s@,
{
    let encoded = encode_segment(s);
    match decode_segment(encoded.as_str()) {
        Some(d) => d,
        None => {
            proof {
                assert(false);
            }
            unreached()
        },
    }
}

/// What decoding and validating a raw segment yields: the decoded text when
/// decoding succeeds and the text is free of `..`, and otherwise the error
/// that says which of the two checks failed.
pub open spec fn spec_from_raw(raw: Seq<char>) -> Result<Seq<char>, DecodeError> {
    match pct_decoded(raw) {
        Option::None => Result::Err(DecodeError::BadEncoding),
        Option::Some(d) => if has_dotdot(d) {
            Result::Err(DecodeError::TraversalDetected)
        } else {
            Result::Ok(d)
        },
    }
}

/// A validated path segment: percent-decoded text known to be free of the
/// traversal pattern `..`.
#[derive(Debug, Clone)]
pub struct PathSegment {
    decoded: String,
}

impl View for PathSegment {
    type V = Seq<char>;

    closed spec fn view(&self) -> Seq<char> {
        self.decoded@
    }
}

impl PathSegment {
    /// A segment is well formed when its decoded text contains no `..`.
    pub open spec fn wf(&self) -> bool {
        !has_dotdot(self@)
    }

    /// Decode a raw URL path segment and refuse it when decoding fails or
    /// the decoded text contains `..`.
    pub fn from_raw(raw: &str) -> (r: Result<PathSegment, DecodeError>)
        ensures
            match r {
                Ok(seg) => spec_from_raw(raw@) == Result::<Seq<char>, DecodeError>::Ok(seg@)
                    && seg.wf(),
                Err(e) => spec_from_raw(raw@) == Result::<Seq<char>, DecodeError>::Err(e),
            },
            !raw@.contains('%') ==> match r {
                Ok(seg) => seg@ == raw@ && !has_dotdot(raw@),
                Err(e) => e == DecodeError::TraversalDetected && has_dotdot(raw@),
            },
    {
        match decode_segment(raw) {
            None => Err(DecodeError::BadEncoding),
            Some(d) => {
                if contains_dotdot(d.as_str()) {
                    Err(DecodeError::TraversalDetected)
                } else {
                    Ok(PathSegment { decoded: d })
                }
            },
        }
    }

    /// The decoded text of the segment.
    pub fn as_str(&self) -> (r: &str)
        ensures
            r@ == self@,
    {
        self.decoded.as_str()
    }
}

} // verus!
