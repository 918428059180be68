//! The fetch-and-extract pipeline, cut at its network transfers.
//!
//! Each function here decides what happens next from what is known so far:
//! which URL to fetch and how, or how the request ends. The caller performs
//! the transfer and hands the outcome to the next function.

use crate::error::{ProxyError, ProxyErrorView};
use crate::extract::{extracted_image, get_image_from_html};
use crate::headers::{
    filter_headers, filtered, header_lines, response_allow_list, response_headers_keep, HeaderSet,
};
use crate::page_url::{
    parse_url, resolve_image_url, resolved, text_or_error, transform_url, transformed, url_parse,
    validated, PageUrl, UrlPartsView,
};
use vstd::prelude::*;
use vstd::string::StringExecFns;

verus! {

/// Seconds after which a fetch is given up.
pub const FETCH_TIMEOUT_SECS: u64 = 5;

/// A GET request for the caller to perform, and the policy to perform it
/// under.
#[derive(Debug, Clone, PartialEq, Eq)]
pub struct FetchRequest {
    /// The absolute URL to fetch.
    pub url: String,
    /// The headers to send.
    pub headers: HeaderSet,
    /// The time allowed for the whole transfer, in seconds.
    pub timeout_secs: u64,
    /// Whether hosts with invalid TLS certificates are to be reached all
    /// the same. The proxy fetches from arbitrary hosts, many of them
    /// misconfigured, so this is always set.
    pub accept_invalid_certs: bool,
}

/// The mathematical value of a [`FetchRequest`].
pub struct FetchRequestView {
    pub url: Seq<char>,
    pub headers: Seq<(Seq<char>, Seq<u8>)>,
    pub timeout_secs: u64,
    pub accept_invalid_certs: bool,
}

impl View for FetchRequest {
    type V = FetchRequestView;

    open spec fn view(&self) -> FetchRequestView {
        FetchRequestView {
            url: self.url@,
            headers: self.headers@,
            timeout_secs: self.timeout_secs,
            accept_invalid_certs: self.accept_invalid_certs,
        }
    }
}

/// The request for `url` with `headers`: five seconds, certificates not
/// validated.
pub open spec fn request_for(
    url: Seq<char>,
    headers: Seq<(Seq<char>, Seq<u8>)>,
) -> FetchRequestView {
    FetchRequestView {
        url,
        headers,
        timeout_secs: FETCH_TIMEOUT_SECS,
        accept_invalid_certs: true,
    }
}

/// Describes the GET of `url` with `headers` as default headers.
pub fn fetch_request(url: &str, headers: HeaderSet) -> (request: FetchRequest)
    ensures
        request@ == request_for(url@, headers@),
{
    FetchRequest {
        url: url.to_string(),
        headers,
        timeout_secs: FETCH_TIMEOUT_SECS,
        accept_invalid_certs: true,
    }
}

/// A request whose page is being fetched: what is needed to go on once the
/// page has arrived.
#[derive(Debug, PartialEq, Eq)]
pub struct PendingPage {
    page_url: String,
    base: PageUrl,
    headers: HeaderSet,
}

/// The mathematical value of a [`PendingPage`].
pub struct PendingPageView {
    /// The page URL as the caller gave it.
    pub page_url: Seq<char>,
    /// The URL at which the page is fetched and against which its image
    /// reference is resolved.
    pub base: UrlPartsView,
    /// The headers to forward upstream.
    pub headers: Seq<(Seq<char>, Seq<u8>)>,
}

impl View for PendingPage {
    type V = PendingPageView;

    closed spec fn view(&self) -> PendingPageView {
        PendingPageView { page_url: self.page_url@, base: self.base@, headers: self.headers@ }
    }
}

/// Where the page named by `page_url` is fetched: the validated URL after
/// the per-host rewrite rules.
pub open spec fn page_target(page_url: Seq<char>) -> Result<UrlPartsView, ProxyErrorView> {
    match validated(url_parse(page_url)) {
        Some(url) => transformed(url),
        None => Err(ProxyErrorView::InvalidUrl),
    }
}

/// The value of the first step's outcome.
pub open spec fn page_fetch_of(
    outcome: Result<(PendingPage, FetchRequest), ProxyError>,
) -> Result<(PendingPageView, FetchRequestView), ProxyErrorView> {
    match outcome {
        Ok((pending, request)) => Ok((pending@, request@)),
        Err(error) => Err(error@),
    }
}

/// What the first step decides for `page_url` and the headers to forward.
pub open spec fn page_fetch_for(
    page_url: Seq<char>,
    headers: Seq<(Seq<char>, Seq<u8>)>,
) -> Result<(PendingPageView, FetchRequestView), ProxyErrorView> {
    match page_target(page_url) {
        Ok(base) => Ok(
            (PendingPageView { page_url, base, headers }, request_for(base.href, headers)),
        ),
        Err(error) => Err(error),
    }
}

/// First step: validates and normalises the page URL and asks for the page.
/// `headers` are sent as they are; the caller filters them beforehand. A
/// URL whose scheme is neither `http` nor `https` is invalid.
pub fn page_fetch(page_url: &str, headers: HeaderSet) -> (outcome: Result<
    (PendingPage, FetchRequest),
    ProxyError,
>)
    ensures
        page_fetch_of(outcome) == page_fetch_for(page_url@, headers@),
        url_parse(page_url@) matches Some(parts) && parts.scheme != "http"@ && parts.scheme
            != "https"@ ==> page_fetch_of(outcome) == Err::<
            (PendingPageView, FetchRequestView),
            ProxyErrorView,
        >(ProxyErrorView::InvalidUrl),
{
    let url = match parse_url(page_url) {
        Some(url) => url,
        None => {
            return Err(ProxyError::InvalidUrl);
        },
    };
    let base = match transform_url(url) {
        Ok(base) => base,
        Err(error) => {
            return Err(error);
        },
    };
    let request = fetch_request(base.href(), headers.duplicate());
    let pending = PendingPage { page_url: page_url.to_string(), base, headers };
    Ok((pending, request))
}

/// What the transfer of a page returned: its body as text, or the
/// transport's description of the failure.
pub open spec fn fetched_of(fetched: Result<String, String>) -> Result<Seq<char>, Seq<char>> {
    match fetched {
        Ok(body) => Ok(body@),
        Err(detail) => Err(detail@),
    }
}

/// The absolute image URL that a fetched page yields.
pub open spec fn image_url_for(
    pending: PendingPageView,
    fetched: Result<Seq<char>, Seq<char>>,
) -> Result<Seq<char>, ProxyErrorView> {
    match fetched {
        Ok(html) => resolved(extracted_image(html), pending.base.href, pending.page_url),
        Err(detail) => Err(ProxyErrorView::Fetch(detail)),
    }
}

/// Second step: the absolute image URL of the page, given what the transfer
/// of the page returned. The image reference is extracted from the page and
/// resolved against the page URL.
pub fn fetch_image_url(pending: &PendingPage, fetched: Result<String, String>) -> (outcome:
    Result<String, ProxyError>)
    ensures
        text_or_error(outcome) == image_url_for(pending@, fetched_of(fetched)),
{
    match fetched {
        Ok(html) => resolve_image_url(
            get_image_from_html(html.as_str()),
            &pending.base,
            pending.page_url.as_str(),
        ),
        Err(detail) => Err(ProxyError::Fetch(detail)),
    }
}

/// Describes the GET of the image for a request whose page has been
/// fetched: the same forwarded headers, the same policy.
pub fn image_request(pending: PendingPage, image_url: &str) -> (request: FetchRequest)
    ensures
        request@ == request_for(image_url@, pending@.headers),
{
    fetch_request(image_url, pending.headers)
}

/// What an upstream host answered to the request for an image.
#[derive(Debug)]
pub struct UpstreamImage {
    pub status: u16,
    pub headers: http::HeaderMap<http::HeaderValue>,
    pub body: Vec<u8>,
}

/// What the caller is sent for an image: the upstream status and body, and
/// the headers that may be handed back.
#[derive(Debug, Clone, PartialEq, Eq)]
pub struct ImageResponse {
    pub status: u16,
    pub headers: HeaderSet,
    pub body: Vec<u8>,
}

/// The mathematical value of an [`UpstreamImage`] and of an
/// [`ImageResponse`].
pub struct ImageResponseView {
    pub status: u16,
    pub headers: Seq<(Seq<char>, Seq<u8>)>,
    pub body: Seq<u8>,
}

impl View for UpstreamImage {
    type V = ImageResponseView;

    open spec fn view(&self) -> ImageResponseView {
        ImageResponseView {
            status: self.status,
            headers: header_lines(self.headers),
            body: self.body@,
        }
    }
}

impl View for ImageResponse {
    type V = ImageResponseView;

    open spec fn view(&self) -> ImageResponseView {
        ImageResponseView { status: self.status, headers: self.headers@, body: self.body@ }
    }
}

/// How the transfer of an image failed.
#[derive(Debug, Clone, PartialEq, Eq)]
pub enum UpstreamFailure {
    /// The request could not be made or was not answered in time; holds the
    /// transport's description.
    Request(String),
    /// The answer's body could not be read to its end; holds the
    /// transport's description.
    Body(String),
}

/// The mathematical value of an [`UpstreamFailure`].
pub enum UpstreamFailureView {
    Request(Seq<char>),
    Body(Seq<char>),
}

impl View for UpstreamFailure {
    type V = UpstreamFailureView;

    open spec fn view(&self) -> UpstreamFailureView {
        match self {
            UpstreamFailure::Request(detail) => UpstreamFailureView::Request(detail@),
            UpstreamFailure::Body(detail) => UpstreamFailureView::Body(detail@),
        }
    }
}

/// The value of what the transfer of an image returned.
pub open spec fn upstream_of(fetched: Result<UpstreamImage, UpstreamFailure>) -> Result<
    ImageResponseView,
    UpstreamFailureView,
> {
    match fetched {
        Ok(response) => Ok(response@),
        Err(failure) => Err(failure@),
    }
}

/// The value of a response or a failure.
pub open spec fn response_or_error(outcome: Result<ImageResponse, ProxyError>) -> Result<
    ImageResponseView,
    ProxyErrorView,
> {
    match outcome {
        Ok(response) => Ok(response@),
        Err(error) => Err(error@),
    }
}

/// What the caller is sent for an image transfer: the upstream status and
/// body, with the headers cut down to the response allow-list. A failed
/// transfer is an upstream error; one that failed while the body was read
/// says so.
pub open spec fn image_response_for(
    fetched: Result<ImageResponseView, UpstreamFailureView>,
) -> Result<ImageResponseView, ProxyErrorView> {
    match fetched {
        Ok(upstream) => Ok(
            ImageResponseView {
                status: upstream.status,
                headers: filtered(upstream.headers, response_allow_list()),
                body: upstream.body,
            },
        ),
        Err(UpstreamFailureView::Request(detail)) => Err(ProxyErrorView::Upstream(detail)),
        Err(UpstreamFailureView::Body(detail)) => Err(
            ProxyErrorView::Upstream("failed to get image bytes: "@ + detail),
        ),
    }
}

/// Last step: turns what the image transfer returned into what the caller
/// is sent.
pub fn image_response(fetched: Result<UpstreamImage, UpstreamFailure>) -> (outcome: Result<
    ImageResponse,
    ProxyError,
>)
    ensures
        response_or_error(outcome) == image_response_for(upstream_of(fetched)),
{
    match fetched {
        Ok(upstream) => {
            let keep = response_headers_keep();
            let headers = filter_headers(&upstream.headers, &keep);
            Ok(ImageResponse { status: upstream.status, headers, body: upstream.body })
        },
        Err(UpstreamFailure::Request(detail)) => Err(ProxyError::Upstream(detail)),
        Err(UpstreamFailure::Body(detail)) => Err(
            ProxyError::Upstream(
                "failed to get image bytes: ".to_string().concat(detail.as_str()),
            ),
        ),
    }
}

} // verus!
