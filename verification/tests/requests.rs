use pageserve::handler::respond;
use pageserve::handler::target_path;
use pageserve::segment::DecodeError;
use pageserve::segment::PathSegment;
use pageserve::segment::percent_round_trip;

#[test]
fn serves_existing_file() {
    let path = target_path("blog", "post1.html").unwrap();
    assert_eq!(path, "converted/blog/post1.html");
    let r = respond(Some("<h1>Hi</h1>".to_string()));
    assert_eq!(r.status, 200);
    assert_eq!(r.body, "<h1>Hi</h1>");
    assert_eq!(r.content_type(), "text/html");
}

#[test]
fn missing_file_is_not_found() {
    let r = respond(None);
    assert_eq!(r.status, 404);
    assert_eq!(r.body, "Page not found :(");
    assert_eq!(r.content_type(), "text/html");
}

#[test]
fn traversal_segment_refused() {
    let e = PathSegment::from_raw("..").unwrap_err();
    assert_eq!(e, DecodeError::TraversalDetected);
    assert_eq!(target_path("..", "secret").unwrap_err(), DecodeError::TraversalDetected);
    assert_eq!(target_path("..%2f..%2fetc", "passwd").unwrap_err(), DecodeError::TraversalDetected);
    assert_eq!(PathSegment::from_raw("%2e%2e").unwrap_err(), DecodeError::TraversalDetected);
    assert_eq!(target_path("blog", "%2E%2E%2fpasswd").unwrap_err(), DecodeError::TraversalDetected);
}

#[test]
fn malformed_escape_is_kept_literally() {
    let seg = PathSegment::from_raw("%zz").unwrap();
    assert_eq!(seg.as_str(), "%zz");
    assert_eq!(target_path("%zz", "name").unwrap(), "converted/%zz/name");
}

#[test]
fn invalid_utf8_refused() {
    assert_eq!(PathSegment::from_raw("%ff").unwrap_err(), DecodeError::BadEncoding);
    assert_eq!(target_path("blog", "%ff%fe").unwrap_err(), DecodeError::BadEncoding);
}

#[test]
fn percent_decoding_round_trip() {
    let inputs = [
        "hello world",
        "a+b=c&d?e",
        "plain",
        "",
        "100% sure",
        "..",
        "h\u{e9}llo \u{2713} \u{1f600}",
        "tricky/%2f/segment",
    ];
    for s in inputs {
        assert_eq!(percent_round_trip(s), s);
    }
}

#[test]
fn decoding_rewrites_escapes() {
    assert_eq!(PathSegment::from_raw("hello%20world").unwrap().as_str(), "hello world");
    assert_eq!(PathSegment::from_raw("%41").unwrap().as_str(), "A");
    assert_eq!(target_path("a%2Db", "c%7Ed").unwrap(), "converted/a-b/c~d");
}

#[test]
fn repeated_requests_identical() {
    let p1 = target_path("blog", "post1.html");
    let p2 = target_path("blog", "post1.html");
    assert_eq!(p1, p2);
    let r1 = respond(Some("same".to_string()));
    let r2 = respond(Some("same".to_string()));
    assert_eq!(r1.status, r2.status);
    assert_eq!(r1.body, r2.body);
    let n1 = respond(None);
    let n2 = respond(None);
    assert_eq!(n1.status, n2.status);
    assert_eq!(n1.body, n2.body);
}

#[test]
fn single_dots_are_allowed() {
    assert_eq!(PathSegment::from_raw("a.b").unwrap().as_str(), "a.b");
    assert_eq!(PathSegment::from_raw(".").unwrap().as_str(), ".");
    assert_eq!(PathSegment::from_raw(".a.").unwrap().as_str(), ".a.");
    assert_eq!(PathSegment::from_raw("a..b").unwrap_err(), DecodeError::TraversalDetected);
}

#[test]
fn empty_segments_build_a_path() {
    assert_eq!(target_path("", "").unwrap(), "converted//");
}
