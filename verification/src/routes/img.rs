//! `GET /img/*url`: redirect to the image of the page at `url`.

use crate::fetcher::{
    fetch_image_url, fetched_of, image_url_for, page_fetch, page_fetch_for, PendingPage,
    PendingPageView,
};
use crate::headers::{
    client_allow_list, client_headers_keep, filter_headers, filtered, header_lines,
};
use crate::routes::{PageStep, PageStepView, Reply, ReplyView};
use vstd::prelude::*;

verus! {

/// The path parameter of the route: the page URL, percent-decoded.
#[derive(Debug)]
pub struct ImageProxy {
    pub url: String,
}

/// What the route decides for a page URL and the caller's headers: ask for
/// the page with the headers that may be forwarded, or fail with the
/// description of what is wrong with the URL.
pub open spec fn redirect_start(
    url: Seq<char>,
    headers: Seq<(Seq<char>, Seq<u8>)>,
) -> PageStepView {
    match page_fetch_for(url, filtered(headers, client_allow_list())) {
        Ok((pending, request)) => PageStepView::Fetch(pending, request),
        Err(error) => PageStepView::Done(ReplyView::Failure(error.message())),
    }
}

/// Starts the route.
pub fn redirect_to_page_image(
    request: ImageProxy,
    headers: &http::HeaderMap<http::HeaderValue>,
) -> (step: PageStep)
    ensures
        step@ == redirect_start(request.url@, header_lines(*headers)),
{
    let keep = client_headers_keep();
    let headers = filter_headers(headers, &keep);
    match page_fetch(request.url.as_str(), headers) {
        Ok((pending, request)) => PageStep::Fetch(pending, request),
        Err(error) => PageStep::Done(Reply::Failure(error.message())),
    }
}

/// How the route ends once the page has been fetched: with a redirect to
/// the image that the page yields, or with the description of the failure.
pub open spec fn redirect_reply(
    pending: PendingPageView,
    fetched: Result<Seq<char>, Seq<char>>,
) -> ReplyView {
    match image_url_for(pending, fetched) {
        Ok(location) => ReplyView::Redirect(location),
        Err(error) => ReplyView::Failure(error.message()),
    }
}

/// Ends the route with what the transfer of the page returned.
pub fn page_fetched(pending: PendingPage, fetched: Result<String, String>) -> (reply: Reply)
    ensures
        reply@ == redirect_reply(pending@, fetched_of(fetched)),
{
    match fetch_image_url(&pending, fetched) {
        Ok(location) => Reply::Redirect(location),
        Err(error) => Reply::Failure(error.message()),
    }
}

} // verus!
