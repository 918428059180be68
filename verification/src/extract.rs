//! Finding a page's representative image in its HTML.
//!
//! Parsing the document and matching CSS selectors are the work of the
//! `scraper` crate. This module fixes which elements are asked for, in
//! which order, and which of the answers counts.

use crate::page_url::text_of;
use vstd::prelude::*;

verus! {

/// The value of a list of optional texts.
pub open spec fn texts_of(items: Seq<Option<String>>) -> Seq<Option<Seq<char>>> {
    items.map_values(|item: Option<String>| text_of(item))
}

/// The value of what a selection returned.
pub open spec fn selection_of(found: Option<Vec<Option<String>>>) -> Option<
    Seq<Option<Seq<char>>>,
> {
    match found {
        Some(items) => Some(texts_of(items@)),
        None => None,
    }
}

/// What `scraper` finds in `html` for a CSS selector and an attribute name:
/// for each element that `Html::select` yields on the document that
/// `Html::parse_document` builds, in the order in which it yields them, the
/// value that `Element::attr` returns. `None` where `Selector::parse`
/// rejects the selector.
pub uninterp spec fn selected_attrs(
    html: Seq<char>,
    selector: Seq<char>,
    attr: Seq<char>,
) -> Option<Seq<Option<Seq<char>>>>;

/// Builds the document once with `scraper::Html::parse_document` and asks
/// it two questions, each a selector and an attribute name: for each, calls
/// `scraper::Selector::parse` and `Html::select`, and reads `Element::attr`
/// off each element. Trusted: the contract only gives the two outcomes
/// their name, [`selected_attrs`].
#[verifier::external_body]
fn select_attrs(html: &str, first: (&str, &str), second: (&str, &str)) -> (found: (
    Option<Vec<Option<String>>>,
    Option<Vec<Option<String>>>,
))
    ensures
        selection_of(found.0) == selected_attrs(html@, first.0@, first.1@),
        selection_of(found.1) == selected_attrs(html@, second.0@, second.1@),
{
    let document = scraper::Html::parse_document(html);
    let select = |(selector, attr): (&str, &str)| -> Option<Vec<Option<String>>> {
        match scraper::Selector::parse(selector) {
            Ok(selector) => Some(
                document.select(&selector).map(
                    |element| element.value().attr(attr).map(|value| value.to_string()),
                ).collect(),
            ),
            Err(_) => None,
        }
    };
    (select(first), select(second))
}

/// The attribute of the first selected element. Nothing where no element
/// was selected or where the first one lacks the attribute: later elements
/// do not stand in for the first.
pub open spec fn first_attr(found: Option<Seq<Option<Seq<char>>>>) -> Option<Seq<char>> {
    match found {
        Some(items) => if items.len() > 0 {
            items[0]
        } else {
            None
        },
        None => None,
    }
}

/// The attribute of the first selected element, given what the selection
/// returned.
pub fn first_selected(found: Option<Vec<Option<String>>>) -> (value: Option<String>)
    ensures
        text_of(value) == first_attr(selection_of(found)),
{
    match found {
        Some(items) => {
            if items.len() > 0 {
                items[0].clone()
            } else {
                None
            }
        },
        None => None,
    }
}

/// The selector for the social-preview metadata element.
pub open spec fn og_image_selector() -> Seq<char> {
    "meta[property=\"og:image\"]"@
}

/// The image reference of a document: the `content` of its first
/// `og:image` metadata element, else the `src` of its first `img` element.
pub open spec fn extracted_image(html: Seq<char>) -> Option<Seq<char>> {
    match first_attr(selected_attrs(html, og_image_selector(), "content"@)) {
        Some(content) => Some(content),
        None => first_attr(selected_attrs(html, "img"@, "src"@)),
    }
}

/// Where the first `og:image` metadata element has a `content`, that is the
/// image reference, whatever `img` elements the document holds.
pub proof fn og_image_takes_precedence(html: Seq<char>, content: Seq<char>)
    requires
        first_attr(selected_attrs(html, og_image_selector(), "content"@)) == Some(content),
    ensures
        extracted_image(html) == Some(content),
{
}

/// Where the document holds no `og:image` metadata element, the image
/// reference is the `src` of its first `img` element.
pub proof fn first_img_is_the_fallback(html: Seq<char>, images: Seq<Option<Seq<char>>>)
    requires
        selected_attrs(html, og_image_selector(), "content"@) == Some(
            Seq::<Option<Seq<char>>>::empty(),
        ),
        selected_attrs(html, "img"@, "src"@) == Some(images),
        images.len() > 0,
    ensures
        extracted_image(html) == images[0],
{
}

/// Where the document holds neither an `og:image` metadata element nor an
/// `img` element, it has no image reference.
pub proof fn no_image_without_either(html: Seq<char>)
    requires
        selected_attrs(html, og_image_selector(), "content"@) == Some(
            Seq::<Option<Seq<char>>>::empty(),
        ),
        selected_attrs(html, "img"@, "src"@) == Some(Seq::<Option<Seq<char>>>::empty()),
    ensures
        extracted_image(html) is None,
{
}

/// Finds the image reference of an HTML document, which may be relative to
/// the page.
pub fn get_image_from_html(html: &str) -> (image: Option<String>)
    ensures
        text_of(image) == extracted_image(html@),
{
    let (og_images, images) = select_attrs(
        html,
        ("meta[property=\"og:image\"]", "content"),
        ("img", "src"),
    );
    match first_selected(og_images) {
        Some(content) => Some(content),
        None => first_selected(images),
    }
}

} // verus!
