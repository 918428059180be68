//! Page URLs: validation, per-host rewriting, and resolution of image
//! references against the page.
//!
//! Parsing and joining are the work of the `url` crate. This module states
//! what it takes from that crate and proves the rules built on top of it.

use crate::error::{ProxyError, ProxyErrorView};
use vstd::prelude::*;

verus! {

/// What the URL parser reports of an absolute URL.
#[derive(Debug, Clone, PartialEq, Eq)]
pub struct UrlParts {
    /// The URL in its normalised, serialised form.
    pub href: String,
    /// The scheme, in lower case and without the colon.
    pub scheme: String,
    /// The host in its serialised form, if the URL has one.
    pub host: Option<String>,
    /// Whether the URL is opaque, so that nothing can be resolved against it.
    pub cannot_be_a_base: bool,
}

/// The mathematical value of [`UrlParts`].
pub struct UrlPartsView {
    pub href: Seq<char>,
    pub scheme: Seq<char>,
    pub host: Option<Seq<char>>,
    pub cannot_be_a_base: bool,
}

/// The text held by an optional string.
pub open spec fn text_of(s: Option<String>) -> Option<Seq<char>> {
    match s {
        Some(s) => Some(s@),
        None => None,
    }
}

impl View for UrlParts {
    type V = UrlPartsView;

    open spec fn view(&self) -> UrlPartsView {
        UrlPartsView {
            href: self.href@,
            scheme: self.scheme@,
            host: text_of(self.host),
            cannot_be_a_base: self.cannot_be_a_base,
        }
    }
}

/// The value of optional [`UrlParts`].
pub open spec fn parts_of(parts: Option<UrlParts>) -> Option<UrlPartsView> {
    match parts {
        Some(parts) => Some(parts@),
        None => None,
    }
}

/// What `url::Url::parse` makes of `input`: the parts of the URL it
/// returns, or `None` where it returns an error.
pub uninterp spec fn url_parse(input: Seq<char>) -> Option<UrlPartsView>;

/// What `url::Url::join` makes of `reference` on the URL that
/// `url::Url::parse` returns for `base`: the parts of the joined URL, or
/// `None` where either of the two returns an error.
pub uninterp spec fn url_join(base: Seq<char>, reference: Seq<char>) -> Option<UrlPartsView>;

/// Calls `url::Url::parse` and reads `as_str`, `scheme`, `host` and
/// `cannot_be_a_base` off the result. Trusted: the contract only gives the
/// outcome its name, [`url_parse`].
#[verifier::external_body]
fn parse_parts(input: &str) -> (parts: Option<UrlParts>)
    ensures
        parts_of(parts) == url_parse(input@),
{
    match url::Url::parse(input) {
        Ok(parsed) => Some(
            UrlParts {
                href: parsed.as_str().to_string(),
                scheme: parsed.scheme().to_string(),
                host: parsed.host().map(|host| host.to_string()),
                cannot_be_a_base: parsed.cannot_be_a_base(),
            },
        ),
        Err(_) => None,
    }
}

/// Calls `url::Url::parse` on `base` and `url::Url::join` on the result,
/// and reads `as_str`, `scheme`, `host` and `cannot_be_a_base` off the
/// joined URL. Trusted: the contract only gives the outcome its name,
/// [`url_join`].
#[verifier::external_body]
fn join_parts(base: &str, reference: &str) -> (parts: Option<UrlParts>)
    ensures
        parts_of(parts) == url_join(base@, reference@),
{
    match url::Url::parse(base) {
        Ok(parsed) => match parsed.join(reference) {
            Ok(joined) => Some(
                UrlParts {
                    href: joined.as_str().to_string(),
                    scheme: joined.scheme().to_string(),
                    host: joined.host().map(|host| host.to_string()),
                    cannot_be_a_base: joined.cannot_be_a_base(),
                },
            ),
            Err(_) => None,
        },
        Err(_) => None,
    }
}

/// A URL may name a page when its scheme is `http` or `https` and relative
/// references can be resolved against it.
pub open spec fn acceptable(parts: UrlPartsView) -> bool {
    (parts.scheme == "http"@ || parts.scheme == "https"@) && !parts.cannot_be_a_base
}

/// The outcome of validation: the parts themselves where a URL was parsed
/// and is acceptable, nothing otherwise.
pub open spec fn validated(parts: Option<UrlPartsView>) -> Option<UrlPartsView> {
    match parts {
        Some(parts) => if acceptable(parts) {
            Some(parts)
        } else {
            None
        },
        None => None,
    }
}

/// A validated page URL: absolute, `http` or `https`, and fit to resolve
/// relative references against. Values are only made by validation.
#[derive(Debug, PartialEq, Eq)]
pub struct PageUrl {
    parts: UrlParts,
}

impl View for PageUrl {
    type V = UrlPartsView;

    closed spec fn view(&self) -> UrlPartsView {
        self.parts@
    }
}

/// The value of an optional page URL.
pub open spec fn page_of(url: Option<PageUrl>) -> Option<UrlPartsView> {
    match url {
        Some(url) => Some(url@),
        None => None,
    }
}

impl PageUrl {
    #[verifier::type_invariant]
    spec fn holds_acceptable_parts(self) -> bool {
        acceptable(self.parts@)
    }

    /// The URL in its serialised form. Every page URL is acceptable.
    pub fn href(&self) -> (href: &str)
        ensures
            href@ == self@.href,
            acceptable(self@),
    {
        proof {
            use_type_invariant(self);
        }
        self.parts.href.as_str()
    }

    /// The scheme, which is `http` or `https`.
    pub fn scheme(&self) -> (scheme: &str)
        ensures
            scheme@ == self@.scheme,
            scheme@ == "http"@ || scheme@ == "https"@,
    {
        proof {
            use_type_invariant(self);
        }
        self.parts.scheme.as_str()
    }

    /// The host, if the URL has one.
    pub fn host(&self) -> (host: &Option<String>)
        ensures
            text_of(*host) == self@.host,
    {
        &self.parts.host
    }
}

/// Accepts what the parser returned if it may name a page.
pub fn validate(parts: Option<UrlParts>) -> (url: Option<PageUrl>)
    ensures
        page_of(url) == validated(parts_of(parts)),
{
    match parts {
        Some(parts) => {
            let http = "http".to_string();
            let https = "https".to_string();
            if (parts.scheme == http || parts.scheme == https) && !parts.cannot_be_a_base {
                Some(PageUrl { parts })
            } else {
                None
            }
        },
        None => None,
    }
}

/// Parses and validates a page URL. Fails where the text is no URL, where
/// its scheme is neither `http` nor `https`, and where it cannot serve as a
/// base for relative references.
pub fn parse_url(raw_url: &str) -> (url: Option<PageUrl>)
    ensures
        page_of(url) == validated(url_parse(raw_url@)),
        url_parse(raw_url@) matches Some(parts) && parts.scheme != "http"@ && parts.scheme
            != "https"@ ==> url is None,
{
    validate(parse_parts(raw_url))
}

/// The per-host rewrite rules: a page on the host on the left is fetched
/// at the relative path on the right.
pub open spec fn rewrite_table() -> Seq<(Seq<char>, Seq<char>)> {
    seq![("imagexxx.host"@, "./big.html"@)]
}

/// The path of the first rule for `host`, if there is one. Hosts are
/// compared exactly.
pub open spec fn rewrite_path(table: Seq<(Seq<char>, Seq<char>)>, host: Seq<char>) -> Option<
    Seq<char>,
>
    decreases table.len(),
{
    if table.len() == 0 {
        None
    } else if table[0].0 == host {
        Some(table[0].1)
    } else {
        rewrite_path(table.drop_first(), host)
    }
}

/// The value of a rule table.
pub open spec fn rules_of(table: Seq<(String, String)>) -> Seq<(Seq<char>, Seq<char>)> {
    table.map_values(|rule: (String, String)| (rule.0@, rule.1@))
}

/// The per-host rewrite rules.
pub fn host_rewrites() -> (table: Vec<(String, String)>)
    ensures
        rules_of(table@) == rewrite_table(),
{
    let mut table: Vec<(String, String)> = Vec::new();
    table.push(("imagexxx.host".to_string(), "./big.html".to_string()));
    assert(rules_of(table@) =~= rewrite_table());
    table
}

proof fn rewrite_path_skips_other_hosts(
    table: Seq<(Seq<char>, Seq<char>)>,
    host: Seq<char>,
    n: int,
)
    requires
        0 <= n <= table.len(),
        forall|j: int| 0 <= j < n ==> (#[trigger] table[j]).0 != host,
    ensures
        rewrite_path(table, host) == rewrite_path(table.skip(n), host),
    decreases n,
{
    if n == 0 {
        assert(table.skip(0) =~= table);
    } else {
        rewrite_path_skips_other_hosts(table, host, n - 1);
        let tail = table.skip(n - 1);
        assert(tail[0] == table[n - 1]);
        assert(tail.drop_first() =~= table.skip(n));
    }
}

/// Looks a host up in a rule table.
pub fn find_rewrite(table: &Vec<(String, String)>, host: &String) -> (path: Option<String>)
    ensures
        text_of(path) == rewrite_path(rules_of(table@), host@),
{
    let ghost rules = rules_of(table@);
    let mut i: usize = 0;
    while i < table.len()
        invariant
            i <= table.len(),
            rules == rules_of(table@),
            forall|j: int| 0 <= j < i ==> (#[trigger] rules[j]).0 != host@,
        decreases table.len() - i,
    {
        if table[i].0 == *host {
            proof {
                rewrite_path_skips_other_hosts(rules, host@, i as int);
                assert(rules.skip(i as int)[0] == rules[i as int]);
            }
            return Some(table[i].1.clone());
        }
        i += 1;
    }
    proof {
        rewrite_path_skips_other_hosts(rules, host@, i as int);
    }
    None
}

/// Where a page is fetched: at the URL itself when no rule names its host,
/// else at the rule's path resolved against the URL. A rewritten URL must
/// be acceptable as well; where the path cannot be resolved to such a URL
/// the page URL is invalid.
pub open spec fn transformed(url: UrlPartsView) -> Result<UrlPartsView, ProxyErrorView> {
    match url.host {
        None => Ok(url),
        Some(host) => match rewrite_path(rewrite_table(), host) {
            None => Ok(url),
            Some(path) => match validated(url_join(url.href, path)) {
                Some(rewritten) => Ok(rewritten),
                None => Err(ProxyErrorView::InvalidUrl),
            },
        },
    }
}

/// A page whose host has a rewrite rule is fetched at the rule's path
/// resolved against the page URL, never at the page URL itself: where that
/// path cannot be resolved to an acceptable URL, nothing is fetched.
pub proof fn rewritten_host_is_fetched_at_its_path(
    url: UrlPartsView,
    host: Seq<char>,
    path: Seq<char>,
)
    requires
        url.host == Some(host),
        rewrite_path(rewrite_table(), host) == Some(path),
    ensures
        transformed(url) matches Ok(target) ==> url_join(url.href, path) == Some(target),
        transformed(url) is Ok <==> validated(url_join(url.href, path)) is Some,
{
}

/// A page whose host has no rewrite rule is fetched at the page URL.
pub proof fn other_hosts_are_fetched_unchanged(url: UrlPartsView)
    requires
        url.host matches Some(host) ==> rewrite_path(rewrite_table(), host) is None,
    ensures
        transformed(url) == Ok::<UrlPartsView, ProxyErrorView>(url),
{
}

/// The value of a page URL or a failure.
pub open spec fn page_or_error(outcome: Result<PageUrl, ProxyError>) -> Result<
    UrlPartsView,
    ProxyErrorView,
> {
    match outcome {
        Ok(url) => Ok(url@),
        Err(error) => Err(error@),
    }
}

/// The outcome of a rewrite, given what joining the rule's path to the URL
/// returned.
pub fn rewritten(joined: Option<UrlParts>) -> (outcome: Result<PageUrl, ProxyError>)
    ensures
        page_or_error(outcome) == match validated(parts_of(joined)) {
            Some(rewritten) => Ok::<UrlPartsView, ProxyErrorView>(rewritten),
            None => Err(ProxyErrorView::InvalidUrl),
        },
{
    match validate(joined) {
        Some(url) => Ok(url),
        None => Err(ProxyError::InvalidUrl),
    }
}

/// Applies the per-host rewrite rules to a validated page URL.
pub fn transform_url(url: PageUrl) -> (outcome: Result<PageUrl, ProxyError>)
    ensures
        page_or_error(outcome) == transformed(url@),
{
    let table = host_rewrites();
    let path = match url.host() {
        Some(host) => find_rewrite(&table, host),
        None => None,
    };
    match path {
        Some(path) => rewritten(join_parts(url.href(), path.as_str())),
        None => Ok(url),
    }
}

/// The absolute image URL for what extraction returned: the reference
/// joined to the page URL. No reference is an empty extraction; a reference
/// that cannot be joined is a resolution error.
pub open spec fn resolved(
    image_ref: Option<Seq<char>>,
    base: Seq<char>,
    page_url: Seq<char>,
) -> Result<Seq<char>, ProxyErrorView> {
    match image_ref {
        None => Err(ProxyErrorView::ExtractionEmpty(page_url)),
        Some(reference) => match url_join(base, reference) {
            Some(joined) => Ok(joined.href),
            None => Err(ProxyErrorView::Resolution(page_url)),
        },
    }
}

/// The value of a text or a failure.
pub open spec fn text_or_error(outcome: Result<String, ProxyError>) -> Result<
    Seq<char>,
    ProxyErrorView,
> {
    match outcome {
        Ok(text) => Ok(text@),
        Err(error) => Err(error@),
    }
}

/// The outcome of joining an image reference to the page URL, given what
/// the join returned. `page_url` is the page URL as the caller gave it, for
/// the failure's description.
pub fn joined_image_url(joined: Option<UrlParts>, page_url: &str) -> (outcome: Result<
    String,
    ProxyError,
>)
    ensures
        text_or_error(outcome) == match parts_of(joined) {
            Some(joined) => Ok::<Seq<char>, ProxyErrorView>(joined.href),
            None => Err(ProxyErrorView::Resolution(page_url@)),
        },
{
    match joined {
        Some(joined) => Ok(joined.href),
        None => Err(ProxyError::Resolution(page_url.to_string())),
    }
}

/// Resolves what extraction returned against the page URL. `page_url` is
/// the page URL as the caller gave it, for the failure's description.
pub fn resolve_image_url(image_ref: Option<String>, base: &PageUrl, page_url: &str) -> (outcome:
    Result<String, ProxyError>)
    ensures
        text_or_error(outcome) == resolved(text_of(image_ref), base@.href, page_url@),
{
    match image_ref {
        Some(reference) => joined_image_url(
            join_parts(base.href(), reference.as_str()),
            page_url,
        ),
        None => Err(ProxyError::ExtractionEmpty(page_url.to_string())),
    }
}

} // verus!
