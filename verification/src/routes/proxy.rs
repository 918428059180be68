//! `GET /proxy/*url`: relay the image of the page at `url`.

use crate::error::{ProxyError, ProxyErrorView};
use crate::fetcher::{
    fetch_image_url, fetched_of, image_request, image_response, image_response_for,
    image_url_for, page_fetch, page_fetch_for, request_for, upstream_of, FetchRequest,
    FetchRequestView, ImageResponseView, PendingPage, PendingPageView, UpstreamFailure,
    UpstreamFailureView, UpstreamImage,
};
use crate::headers::{
    client_allow_list, client_headers_keep, filter_headers, filtered, header_lines,
};
use crate::routes::{PageStep, PageStepView, Reply, ReplyView};
use vstd::prelude::*;
use vstd::string::StringExecFns;

verus! {

/// The path parameter of the route: the page URL, percent-decoded.
#[derive(Debug)]
pub struct ImageProxy {
    pub url: String,
}

/// What the caller is told when no image URL could be had for the page.
pub open spec fn image_url_failure(error: ProxyErrorView) -> Seq<char> {
    "failed to fetch image url: "@ + error.message()
}

fn describe_image_url_failure(error: &ProxyError) -> (message: String)
    ensures
        message@ == image_url_failure(error@),
{
    "failed to fetch image url: ".to_string().concat(error.message().as_str())
}

/// What the route decides for a page URL and the caller's headers: ask for
/// the page with the headers that may be forwarded, or fail.
pub open spec fn proxy_start(
    url: Seq<char>,
    headers: Seq<(Seq<char>, Seq<u8>)>,
) -> PageStepView {
    match page_fetch_for(url, filtered(headers, client_allow_list())) {
        Ok((pending, request)) => PageStepView::Fetch(pending, request),
        Err(error) => PageStepView::Done(ReplyView::Failure(image_url_failure(error))),
    }
}

/// Starts the route.
pub fn proxy_page_image(
    request: ImageProxy,
    headers: &http::HeaderMap<http::HeaderValue>,
) -> (step: PageStep)
    ensures
        step@ == proxy_start(request.url@, header_lines(*headers)),
{
    let keep = client_headers_keep();
    let headers = filter_headers(headers, &keep);
    match page_fetch(request.url.as_str(), headers) {
        Ok((pending, request)) => PageStep::Fetch(pending, request),
        Err(error) => PageStep::Done(Reply::Failure(describe_image_url_failure(&error))),
    }
}

/// What the route decides once the page has been fetched.
#[derive(Debug, PartialEq, Eq)]
pub enum ImageStep {
    /// Fetch the image, then continue with the outcome.
    Fetch(FetchRequest),
    /// The request ends here.
    Done(Reply),
}

/// The mathematical value of an [`ImageStep`].
pub enum ImageStepView {
    Fetch(FetchRequestView),
    Done(ReplyView),
}

impl View for ImageStep {
    type V = ImageStepView;

    open spec fn view(&self) -> ImageStepView {
        match self {
            ImageStep::Fetch(request) => ImageStepView::Fetch(request@),
            ImageStep::Done(reply) => ImageStepView::Done(reply@),
        }
    }
}

/// How the route goes on once the page has been fetched: it asks for the
/// image that the page yields, with the headers that were forwarded for the
/// page, or fails.
pub open spec fn proxy_image_step(
    pending: PendingPageView,
    fetched: Result<Seq<char>, Seq<char>>,
) -> ImageStepView {
    match image_url_for(pending, fetched) {
        Ok(image_url) => ImageStepView::Fetch(request_for(image_url, pending.headers)),
        Err(error) => ImageStepView::Done(ReplyView::Failure(image_url_failure(error))),
    }
}

/// Continues the route with what the transfer of the page returned.
pub fn page_fetched(pending: PendingPage, fetched: Result<String, String>) -> (step: ImageStep)
    ensures
        step@ == proxy_image_step(pending@, fetched_of(fetched)),
{
    match fetch_image_url(&pending, fetched) {
        Ok(image_url) => ImageStep::Fetch(image_request(pending, image_url.as_str())),
        Err(error) => ImageStep::Done(Reply::Failure(describe_image_url_failure(&error))),
    }
}

/// How the route ends once the image has been fetched: with the upstream
/// status and body and the headers that may be handed back, or with the
/// description of the failure.
pub open spec fn proxy_reply(fetched: Result<ImageResponseView, UpstreamFailureView>) -> ReplyView {
    match image_response_for(fetched) {
        Ok(response) => ReplyView::Image(response),
        Err(error) => ReplyView::Failure(error.message()),
    }
}

/// Ends the route with what the transfer of the image returned.
pub fn image_fetched(fetched: Result<UpstreamImage, UpstreamFailure>) -> (reply: Reply)
    ensures
        reply@ == proxy_reply(upstream_of(fetched)),
{
    match image_response(fetched) {
        Ok(response) => Reply::Image(response),
        Err(error) => Reply::Failure(error.message()),
    }
}

} // verus!
