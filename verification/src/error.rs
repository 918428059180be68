//! The ways in which a request can fail, and what the caller is told.

use vstd::prelude::*;
use vstd::string::StringExecFns;

verus! {

/// Why the pipeline stopped. Each stage fails with its own kind; nothing is
/// retried, and the first failure ends the request.
#[derive(Debug, Clone, PartialEq, Eq)]
pub enum ProxyError {
    /// The page URL is malformed, is not `http` or `https`, or cannot serve
    /// as a base for relative references.
    InvalidUrl,
    /// The page could not be retrieved; holds the transport's description.
    Fetch(String),
    /// The page holds no qualifying image reference; holds the page URL as
    /// the caller gave it.
    ExtractionEmpty(String),
    /// The image reference could not be joined to the page URL; holds the
    /// page URL as the caller gave it.
    Resolution(String),
    /// The image could not be retrieved; holds the description of the
    /// failure.
    Upstream(String),
}

/// The mathematical value of a [`ProxyError`].
pub enum ProxyErrorView {
    InvalidUrl,
    Fetch(Seq<char>),
    ExtractionEmpty(Seq<char>),
    Resolution(Seq<char>),
    Upstream(Seq<char>),
}

impl View for ProxyError {
    type V = ProxyErrorView;

    open spec fn view(&self) -> ProxyErrorView {
        match self {
            ProxyError::InvalidUrl => ProxyErrorView::InvalidUrl,
            ProxyError::Fetch(detail) => ProxyErrorView::Fetch(detail@),
            ProxyError::ExtractionEmpty(page) => ProxyErrorView::ExtractionEmpty(page@),
            ProxyError::Resolution(page) => ProxyErrorView::Resolution(page@),
            ProxyError::Upstream(detail) => ProxyErrorView::Upstream(detail@),
        }
    }
}

impl ProxyErrorView {
    /// The text that describes the failure to the caller. A page without an
    /// image and an image reference that cannot be resolved read the same:
    /// both mean that no image was found.
    pub open spec fn message(self) -> Seq<char> {
        match self {
            ProxyErrorView::InvalidUrl => "invalid url"@,
            ProxyErrorView::Fetch(detail) => detail,
            ProxyErrorView::ExtractionEmpty(page) => "no image found in "@ + page,
            ProxyErrorView::Resolution(page) => "no image found in "@ + page,
            ProxyErrorView::Upstream(detail) => detail,
        }
    }
}

impl ProxyError {
    /// The text that describes the failure to the caller.
    pub fn message(&self) -> (text: String)
        ensures
            text@ == self@.message(),
    {
        match self {
            ProxyError::InvalidUrl => "invalid url".to_string(),
            ProxyError::Fetch(detail) => detail.clone(),
            ProxyError::ExtractionEmpty(page) => "no image found in ".to_string().concat(
                page.as_str(),
            ),
            ProxyError::Resolution(page) => "no image found in ".to_string().concat(page.as_str()),
            ProxyError::Upstream(detail) => detail.clone(),
        }
    }
}

} // verus!
