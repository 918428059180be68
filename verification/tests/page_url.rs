use image_proxy::error::ProxyError;
use image_proxy::page_url::{
    find_rewrite, host_rewrites, joined_image_url, parse_url, resolve_image_url, rewritten,
    transform_url, validate, PageUrl, UrlParts,
};

fn page(raw: &str) -> PageUrl {
    parse_url(raw).expect("a valid page URL")
}

fn parts(href: &str, scheme: &str, host: Option<&str>, cannot_be_a_base: bool) -> UrlParts {
    UrlParts {
        href: href.to_string(),
        scheme: scheme.to_string(),
        host: host.map(|host| host.to_string()),
        cannot_be_a_base,
    }
}

#[test]
fn http_and_https_urls_are_accepted() {
    let url = page("https://example.com/page");
    assert_eq!(url.href(), "https://example.com/page");
    assert_eq!(url.scheme(), "https");
    assert_eq!(url.host(), &Some("example.com".to_string()));
    let url = page("http://example.com:8080/a?b=c#d");
    assert_eq!(url.href(), "http://example.com:8080/a?b=c#d");
    assert_eq!(url.scheme(), "http");
}

#[test]
fn accepted_urls_are_normalised() {
    assert_eq!(page("HTTPS://Example.COM").href(), "https://example.com/");
    assert_eq!(page("http://example.com/a/../b").href(), "http://example.com/b");
    assert_eq!(page("https://127.0.0.1/x").host(), &Some("127.0.0.1".to_string()));
    assert_eq!(page("https://[::1]/x").host(), &Some("[::1]".to_string()));
}

#[test]
fn other_schemes_are_rejected() {
    assert_eq!(parse_url("ftp://example.com/file.png"), None);
    assert_eq!(parse_url("file:///etc/passwd"), None);
    assert_eq!(parse_url("ws://example.com/socket"), None);
    assert_eq!(parse_url("gopher://example.com/"), None);
    assert_eq!(parse_url("httpx://example.com/"), None);
}

#[test]
fn urls_that_cannot_be_a_base_are_rejected() {
    assert_eq!(parse_url("data:text/plain,Stuff"), None);
    assert_eq!(parse_url("mailto:someone@example.com"), None);
    assert_eq!(parse_url("javascript:alert(1)"), None);
}

#[test]
fn text_that_is_no_absolute_url_is_rejected() {
    assert_eq!(parse_url(""), None);
    assert_eq!(parse_url("not a url"), None);
    assert_eq!(parse_url("/relative/path"), None);
    assert_eq!(parse_url("example.com/page"), None);
    assert_eq!(parse_url("https://"), None);
    assert_eq!(parse_url("http://[::1"), None);
}

#[test]
fn validate_goes_by_scheme_and_base() {
    assert_eq!(validate(None), None);
    assert_eq!(validate(Some(parts("ftp://h/", "ftp", Some("h"), false))), None);
    assert_eq!(validate(Some(parts("http:opaque", "http", None, true))), None);
    assert_eq!(validate(Some(parts("HTTP://h/", "HTTP", Some("h"), false))), None);
    let url = validate(Some(parts("http://h/", "http", Some("h"), false))).expect("accepted");
    assert_eq!(url.href(), "http://h/");
    let url = validate(Some(parts("https://h/", "https", None, false))).expect("accepted");
    assert_eq!(url.scheme(), "https");
    assert_eq!(url.host(), &None);
}

#[test]
fn rewrite_table_holds_the_one_known_host() {
    assert_eq!(
        host_rewrites(),
        vec![("imagexxx.host".to_string(), "./big.html".to_string())]
    );
}

#[test]
fn find_rewrite_matches_hosts_exactly_and_takes_the_first_rule() {
    let table = vec![
        ("a.test".to_string(), "./one.html".to_string()),
        ("b.test".to_string(), "./two.html".to_string()),
        ("a.test".to_string(), "./three.html".to_string()),
    ];
    assert_eq!(find_rewrite(&table, &"a.test".to_string()), Some("./one.html".to_string()));
    assert_eq!(find_rewrite(&table, &"b.test".to_string()), Some("./two.html".to_string()));
    assert_eq!(find_rewrite(&table, &"A.test".to_string()), None);
    assert_eq!(find_rewrite(&table, &"www.a.test".to_string()), None);
    assert_eq!(find_rewrite(&Vec::new(), &"a.test".to_string()), None);
}

#[test]
fn known_host_is_rewritten_to_its_path() {
    let url = transform_url(page("https://imagexxx.host/gallery/item.html")).expect("rewritten");
    assert_eq!(url.href(), "https://imagexxx.host/gallery/big.html");
    let url = transform_url(page("http://imagexxx.host")).expect("rewritten");
    assert_eq!(url.href(), "http://imagexxx.host/big.html");
    let url = transform_url(page("https://imagexxx.host/a/b/?q=1#top")).expect("rewritten");
    assert_eq!(url.href(), "https://imagexxx.host/a/b/big.html");
}

#[test]
fn other_hosts_pass_through_unchanged() {
    let url = transform_url(page("https://example.com/gallery/item.html?x=1")).expect("unchanged");
    assert_eq!(url.href(), "https://example.com/gallery/item.html?x=1");
    let url = transform_url(page("https://www.imagexxx.host/item.html")).expect("unchanged");
    assert_eq!(url.href(), "https://www.imagexxx.host/item.html");
}

#[test]
fn rewritten_accepts_what_validation_accepts() {
    assert_eq!(rewritten(None), Err(ProxyError::InvalidUrl));
    assert_eq!(
        rewritten(Some(parts("ftp://h/big.html", "ftp", Some("h"), false))),
        Err(ProxyError::InvalidUrl)
    );
    let url = rewritten(Some(parts("https://h/big.html", "https", Some("h"), false)));
    assert_eq!(url.expect("accepted").href(), "https://h/big.html");
}

#[test]
fn relative_reference_is_joined_to_the_page() {
    let base = page("https://example.com/page");
    assert_eq!(
        resolve_image_url(Some("/a/b.png".to_string()), &base, "https://example.com/page"),
        Ok("https://example.com/a/b.png".to_string())
    );
    let base = page("https://example.com/posts/2024/entry.html");
    assert_eq!(
        resolve_image_url(Some("img/cover.jpg".to_string()), &base, "x"),
        Ok("https://example.com/posts/2024/img/cover.jpg".to_string())
    );
    assert_eq!(
        resolve_image_url(Some("../cover.jpg".to_string()), &base, "x"),
        Ok("https://example.com/posts/cover.jpg".to_string())
    );
    assert_eq!(
        resolve_image_url(Some("//cdn.test/c.png".to_string()), &base, "x"),
        Ok("https://cdn.test/c.png".to_string())
    );
    assert_eq!(
        resolve_image_url(Some("".to_string()), &base, "x"),
        Ok("https://example.com/posts/2024/entry.html".to_string())
    );
}

#[test]
fn absolute_reference_stands_as_it_is() {
    let base = page("https://example.com/page");
    assert_eq!(
        resolve_image_url(Some("http://cdn.test/img.png".to_string()), &base, "x"),
        Ok("http://cdn.test/img.png".to_string())
    );
    assert_eq!(
        resolve_image_url(Some("data:image/png;base64,AAAA".to_string()), &base, "x"),
        Ok("data:image/png;base64,AAAA".to_string())
    );
}

#[test]
fn missing_reference_is_an_empty_extraction() {
    let base = page("https://example.com/page");
    assert_eq!(
        resolve_image_url(None, &base, "https://example.com/page"),
        Err(ProxyError::ExtractionEmpty("https://example.com/page".to_string()))
    );
}

#[test]
fn malformed_reference_is_a_resolution_error() {
    let base = page("https://example.com/page");
    assert_eq!(
        resolve_image_url(Some("http://[::1".to_string()), &base, "the page"),
        Err(ProxyError::Resolution("the page".to_string()))
    );
    assert_eq!(
        resolve_image_url(Some("https://".to_string()), &base, "the page"),
        Err(ProxyError::Resolution("the page".to_string()))
    );
}

#[test]
fn joined_image_url_takes_the_href_or_fails_with_the_page() {
    assert_eq!(
        joined_image_url(Some(parts("ftp://h/i.png", "ftp", Some("h"), false)), "p"),
        Ok("ftp://h/i.png".to_string())
    );
    assert_eq!(joined_image_url(None, "p"), Err(ProxyError::Resolution("p".to_string())));
}
