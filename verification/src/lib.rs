//! Image-extraction proxy core: given a web page URL, find the page's
//! representative image and describe how to redirect to it or relay it.
//!
//! The crate holds the decisions of the proxy; the caller performs the
//! network transfers that those decisions ask for.

pub mod config;
pub mod error;
pub mod extract;
pub mod fetcher;
pub mod headers;
pub mod page_url;
pub mod routes;
