use http::header::{HeaderName, HeaderValue};
use http::HeaderMap;
use image_proxy::headers::{
    client_headers_keep, filter_headers, filter_lines, is_allowed, response_headers_keep, Header,
    HeaderSet,
};

fn header(name: &str, value: &str) -> Header {
    Header { name: name.to_string(), value: value.as_bytes().to_vec() }
}

fn set(entries: Vec<Header>) -> HeaderSet {
    HeaderSet { entries }
}

fn map(lines: &[(&str, &str)]) -> HeaderMap {
    let mut map = HeaderMap::new();
    for (name, value) in lines {
        map.append(
            HeaderName::from_bytes(name.as_bytes()).expect("a header name"),
            HeaderValue::from_bytes(value.as_bytes()).expect("a header value"),
        );
    }
    map
}

fn names(list: &[&str]) -> Vec<String> {
    list.iter().map(|name| name.to_string()).collect()
}

#[test]
fn client_allow_list_holds_the_six_request_names() {
    assert_eq!(
        client_headers_keep(),
        names(&[
            "accept",
            "accept-encoding",
            "if-modified-since",
            "if-none-match",
            "range",
            "user-agent",
        ])
    );
}

#[test]
fn response_allow_list_holds_the_nine_response_names() {
    assert_eq!(
        response_headers_keep(),
        names(&[
            "content-type",
            "content-length",
            "etag",
            "last-modified",
            "vary",
            "cache-control",
            "age",
            "accept-ranges",
            "transfer-encoding",
        ])
    );
}

#[test]
fn filter_keeps_only_allowed_names() {
    let source = set(vec![
        header("accept", "image/*"),
        header("cookie", "session=1"),
        header("user-agent", "probe/1.0"),
        header("authorization", "Bearer x"),
        header("range", "bytes=0-99"),
    ]);
    let kept = filter_lines(&source, &client_headers_keep());
    assert_eq!(
        kept,
        set(vec![
            header("accept", "image/*"),
            header("user-agent", "probe/1.0"),
            header("range", "bytes=0-99"),
        ])
    );
}

#[test]
fn filter_compares_names_without_regard_to_case_and_keeps_their_casing() {
    let source = set(vec![
        header("Accept", "image/*"),
        header("USER-AGENT", "probe/1.0"),
        header("If-None-Match", "\"abc\""),
        header("X-Accept", "no"),
    ]);
    let kept = filter_lines(&source, &client_headers_keep());
    assert_eq!(
        kept,
        set(vec![
            header("Accept", "image/*"),
            header("USER-AGENT", "probe/1.0"),
            header("If-None-Match", "\"abc\""),
        ])
    );
}

#[test]
fn filter_keeps_order_and_multiplicity() {
    let source = set(vec![
        header("vary", "accept"),
        header("set-cookie", "a=1"),
        header("content-type", "image/png"),
        header("vary", "accept-encoding"),
        header("set-cookie", "b=2"),
        header("vary", "accept"),
    ]);
    let kept = filter_lines(&source, &response_headers_keep());
    assert_eq!(
        kept,
        set(vec![
            header("vary", "accept"),
            header("content-type", "image/png"),
            header("vary", "accept-encoding"),
            header("vary", "accept"),
        ])
    );
}

#[test]
fn filter_passes_values_on_byte_for_byte() {
    let source = set(vec![Header { name: "etag".to_string(), value: vec![0xff, 0x00, 0x22, 0x80] }]);
    let kept = filter_lines(&source, &response_headers_keep());
    assert_eq!(kept.entries.len(), 1);
    assert_eq!(kept.entries[0].value, vec![0xff, 0x00, 0x22, 0x80]);
}

#[test]
fn filter_is_idempotent_on_a_mixed_set() {
    let source = set(vec![
        header("Accept", "*/*"),
        header("host", "example.com"),
        header("accept-encoding", "gzip"),
        header("Accept", "text/html"),
        header("x-request-id", "01H"),
    ]);
    let keep = client_headers_keep();
    let once = filter_lines(&source, &keep);
    let twice = filter_lines(&once, &keep);
    assert_eq!(once.entries.len(), 3);
    assert_eq!(twice, once);
}

#[test]
fn filter_of_an_empty_set_is_empty() {
    let kept = filter_lines(&set(vec![]), &client_headers_keep());
    assert_eq!(kept, set(vec![]));
}

#[test]
fn filter_with_an_empty_allow_list_drops_everything() {
    let source = set(vec![header("accept", "*/*"), header("range", "bytes=0-")]);
    let kept = filter_lines(&source, &Vec::new());
    assert_eq!(kept, set(vec![]));
}

#[test]
fn filter_leaves_the_source_untouched() {
    let source = set(vec![header("accept", "*/*"), header("cookie", "a=1")]);
    let before = source.clone();
    let _ = filter_lines(&source, &client_headers_keep());
    assert_eq!(source, before);
}

#[test]
fn allowed_names_match_up_to_ascii_case_only() {
    let keep = client_headers_keep();
    assert!(is_allowed("accept", &keep));
    assert!(is_allowed("ACCEPT", &keep));
    assert!(is_allowed("If-Modified-Since", &keep));
    assert!(!is_allowed("accept ", &keep));
    assert!(!is_allowed("accep", &keep));
    assert!(!is_allowed("", &keep));
    assert!(!is_allowed("content-type", &keep));
    assert!(is_allowed("Content-Type", &response_headers_keep()));
}

#[test]
fn allowed_names_match_members_written_in_upper_case() {
    let keep = names(&["ETag"]);
    assert!(is_allowed("etag", &keep));
    assert!(is_allowed("ETAG", &keep));
    assert!(!is_allowed("e-tag", &keep));
}

#[test]
fn non_ascii_letters_are_not_folded() {
    let keep = names(&["\u{e9}tag"]);
    assert!(is_allowed("\u{e9}TAG", &keep));
    assert!(!is_allowed("\u{c9}tag", &keep));
}

#[test]
fn duplicate_copies_every_entry() {
    let source = set(vec![header("a", "1"), header("b", "2"), header("a", "3")]);
    assert_eq!(source.duplicate(), source);
    assert_eq!(set(vec![]).duplicate(), set(vec![]));
}

#[test]
fn header_map_is_filtered_line_by_line() {
    let source = map(&[
        ("host", "proxy.test"),
        ("accept", "image/avif"),
        ("cookie", "session=1"),
        ("user-agent", "probe/1.0"),
        ("if-none-match", "\"abc\""),
    ]);
    let kept = filter_headers(&source, &client_headers_keep());
    assert_eq!(
        kept,
        set(vec![
            header("accept", "image/avif"),
            header("user-agent", "probe/1.0"),
            header("if-none-match", "\"abc\""),
        ])
    );
}

#[test]
fn header_map_names_arrive_in_lower_case() {
    let source = map(&[("Content-Type", "image/png"), ("X-Powered-By", "none")]);
    let kept = filter_headers(&source, &response_headers_keep());
    assert_eq!(kept, set(vec![header("content-type", "image/png")]));
}

#[test]
fn header_map_values_of_one_name_are_all_kept_in_their_order() {
    let source = map(&[
        ("vary", "accept"),
        ("set-cookie", "a=1"),
        ("vary", "accept-encoding"),
        ("etag", "\"v2\""),
    ]);
    let kept = filter_headers(&source, &response_headers_keep());
    assert_eq!(
        kept,
        set(vec![
            header("vary", "accept"),
            header("vary", "accept-encoding"),
            header("etag", "\"v2\""),
        ])
    );
}

#[test]
fn header_map_values_are_read_byte_for_byte() {
    let mut source = HeaderMap::new();
    source.append(
        HeaderName::from_static("etag"),
        HeaderValue::from_bytes(&[0x22, 0xe9, 0xff, 0x22]).expect("a header value"),
    );
    let kept = filter_headers(&source, &response_headers_keep());
    assert_eq!(kept.entries.len(), 1);
    assert_eq!(kept.entries[0].name, "etag");
    assert_eq!(kept.entries[0].value, vec![0x22, 0xe9, 0xff, 0x22]);
}

#[test]
fn empty_header_map_yields_an_empty_set() {
    assert_eq!(filter_headers(&HeaderMap::new(), &client_headers_keep()), set(vec![]));
}
