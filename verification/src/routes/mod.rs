//! The two routes of the proxy, as decisions: each function takes what a
//! request has got so far and says what to do next.
//!
//! A route starts from the request and either ends at once or asks for the
//! page. The caller fetches what is asked for and continues with the
//! outcome, until a function returns the [`Reply`].

use crate::fetcher::{
    FetchRequest, FetchRequestView, ImageResponse, ImageResponseView, PendingPage,
    PendingPageView,
};
use vstd::prelude::*;

pub mod img;
pub mod proxy;

verus! {

/// How a request ends.
#[derive(Debug, PartialEq, Eq)]
pub enum Reply {
    /// A temporary redirect to the image's URL.
    Redirect(String),
    /// The image itself, relayed from upstream.
    Image(ImageResponse),
    /// A server error with a plain-text description.
    Failure(String),
}

/// The mathematical value of a [`Reply`].
pub enum ReplyView {
    Redirect(Seq<char>),
    Image(ImageResponseView),
    Failure(Seq<char>),
}

impl View for Reply {
    type V = ReplyView;

    open spec fn view(&self) -> ReplyView {
        match self {
            Reply::Redirect(location) => ReplyView::Redirect(location@),
            Reply::Image(response) => ReplyView::Image(response@),
            Reply::Failure(message) => ReplyView::Failure(message@),
        }
    }
}

impl ReplyView {
    /// The HTTP status of the reply: 307 for a redirect, the upstream
    /// status for a relayed image, 500 for every failure.
    pub open spec fn status(self) -> u16 {
        match self {
            ReplyView::Redirect(_) => 307,
            ReplyView::Image(response) => response.status,
            ReplyView::Failure(_) => 500,
        }
    }
}

impl Reply {
    /// The HTTP status of the reply.
    pub fn status(&self) -> (status: u16)
        ensures
            status == self@.status(),
    {
        match self {
            Reply::Redirect(_) => 307,
            Reply::Image(response) => response.status,
            Reply::Failure(_) => 500,
        }
    }
}

/// What a route decides at its start.
#[derive(Debug, PartialEq, Eq)]
pub enum PageStep {
    /// Fetch the page, then continue with the pending request.
    Fetch(PendingPage, FetchRequest),
    /// The request ends here.
    Done(Reply),
}

/// The mathematical value of a [`PageStep`].
pub enum PageStepView {
    Fetch(PendingPageView, FetchRequestView),
    Done(ReplyView),
}

impl View for PageStep {
    type V = PageStepView;

    open spec fn view(&self) -> PageStepView {
        match self {
            PageStep::Fetch(pending, request) => PageStepView::Fetch(pending@, request@),
            PageStep::Done(reply) => PageStepView::Done(reply@),
        }
    }
}

} // verus!
