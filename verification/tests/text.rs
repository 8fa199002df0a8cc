use uwebsockets_rs::http_request::HttpRequest;
use uwebsockets_rs::utils::bytes_eq;
use uwebsockets_rs::utils::to_lower_bytes;
use uwebsockets_rs::utils::truncate_to_valid_utf8;
use uwebsockets_rs::utils::utf8_valid_prefix_len;

fn prefix_matches_std(bytes: &[u8]) {
    let ours = utf8_valid_prefix_len(bytes);
    let theirs = match std::str::from_utf8(bytes) {
        Ok(_) => bytes.len(),
        Err(e) => e.valid_up_to(),
    };
    assert_eq!(ours, theirs, "prefix length differs on {bytes:?}");
}

#[test]
fn utf8_prefix_agrees_with_std() {
    let cases: &[&[u8]] = &[
        b"",
        b"plain ascii",
        "äöüßé".as_bytes(),
        "\u{1F600} emoji".as_bytes(),
        b"ok\xffrest",
        b"truncated \xc3",
        b"\xc0\x80 overlong",
        b"\xed\xa0\x80 surrogate",
        b"\xf4\x90\x80\x80 beyond max",
        b"\xf0\x9f\x98\x80 full four bytes",
        b"\x80 stray continuation",
        b"mix \xe2\x82\xac euro \xe2\x82",
    ];
    for c in cases {
        prefix_matches_std(c);
    }
}

#[test]
fn truncate_keeps_the_valid_prefix() {
    let t = truncate_to_valid_utf8(b"ok\xffrest");
    assert_eq!(t, b"ok".to_vec());
    let whole = truncate_to_valid_utf8("résumé".as_bytes());
    assert_eq!(whole, "résumé".as_bytes().to_vec());
    std::str::from_utf8(&t).unwrap();
}

#[test]
fn byte_helpers_compare_and_lowercase() {
    assert!(bytes_eq(b"abc", b"abc"));
    assert!(!bytes_eq(b"abc", b"abd"));
    assert!(!bytes_eq(b"abc", b"ab"));
    assert_eq!(to_lower_bytes(b"GeT-123?Z"), b"get-123?z".to_vec());
}

fn request(query: &[u8]) -> HttpRequest {
    HttpRequest::new(
        b"GET".to_vec(),
        b"/search".to_vec(),
        query.to_vec(),
        vec![
            (b"host".to_vec(), b"example.org".to_vec()),
            (b"accept".to_vec(), b"text/html".to_vec()),
            (b"accept".to_vec(), b"application/json".to_vec()),
        ],
        vec![b"rome".to_vec(), b"2024".to_vec()],
        false,
    )
}

#[test]
fn query_lookup_finds_first_match() {
    let req = request(b"a=1&b=2&a=3");
    assert_eq!(req.get_query(b"a"), Some(b"1".to_vec()));
    assert_eq!(req.get_query(b"b"), Some(b"2".to_vec()));
    assert_eq!(req.get_query(b"c"), None);
}

#[test]
fn query_lookup_handles_bare_keys_and_empty() {
    let req = request(b"flag&x=");
    assert_eq!(req.get_query(b"flag"), Some(Vec::new()));
    assert_eq!(req.get_query(b"x"), Some(Vec::new()));
    let empty = request(b"");
    assert_eq!(empty.get_query(b"a"), None);
    // A key that is a prefix of another key does not match it.
    let req2 = request(b"alpha=5");
    assert_eq!(req2.get_query(b"a"), None);
}

#[test]
fn header_lookup_finds_first_match() {
    let req = request(b"");
    assert_eq!(req.get_header(b"host"), Some(&b"example.org".to_vec()));
    assert_eq!(req.get_header(b"accept"), Some(&b"text/html".to_vec()));
    assert_eq!(req.get_header(b"cookie"), None);
    assert_eq!(req.get_headers().len(), 3);
}

#[test]
fn url_method_and_parameters() {
    let req = request(b"a=1");
    assert_eq!(req.get_url(), &b"/search".to_vec());
    assert_eq!(req.get_full_url(), b"/search?a=1".to_vec());
    let bare = request(b"");
    assert_eq!(bare.get_full_url(), b"/search".to_vec());
    assert_eq!(req.get_method(), b"get".to_vec());
    assert_eq!(req.get_case_sensitive_method(), &b"GET".to_vec());
    assert_eq!(req.get_parameter(0), Some(&b"rome".to_vec()));
    assert_eq!(req.get_parameter(1), Some(&b"2024".to_vec()));
    assert_eq!(req.get_parameter(2), None);
    assert!(!req.is_ancient());
}

#[test]
fn yield_flag_round_trips() {
    let mut req = request(b"");
    assert!(!req.get_yield());
    req.set_yield(true);
    assert!(req.get_yield());
}
