//! The HTML parser and CSS selector engine of `scraper`, as far as the
//! catalog pages need them. Parsed documents and elements are opaque here.
use vstd::prelude::*;

verus! {

#[verifier::external_type_specification]
#[verifier::external_body]
pub struct ExHtml(scraper::Html);

#[verifier::external_type_specification]
#[verifier::external_body]
pub struct ExSelector(scraper::Selector);

#[verifier::external_type_specification]
#[verifier::external_body]
pub struct ExElementRef<'a>(scraper::ElementRef<'a>);

/// The document tree that a page's text parses into.
pub uninterp spec fn html_document(page: Seq<char>) -> &'static scraper::Html;

/// The selector that a CSS text parses into, if it is valid.
pub uninterp spec fn css_selector(text: Seq<char>) -> Option<scraper::Selector>;

/// The elements of a document that a selector matches, in document order.
pub uninterp spec fn document_matches(
    doc: &scraper::Html,
    sel: scraper::Selector,
) -> Seq<scraper::ElementRef<'static>>;

/// The descendants of an element that a selector matches, in document order.
pub uninterp spec fn element_matches(
    el: scraper::ElementRef<'static>,
    sel: scraper::Selector,
) -> Seq<scraper::ElementRef<'static>>;

/// The text nodes of an element, joined.
pub uninterp spec fn element_text(el: scraper::ElementRef<'static>) -> Seq<char>;

/// The value of an element's attribute, if it has it.
pub uninterp spec fn element_attr(el: scraper::ElementRef<'static>, name: Seq<char>) -> Option<Seq<char>>;

/// Relies on `scraper::Html::parse_document`: a document tree from text.
#[verifier::external_body]
pub(crate) fn parse_html(text: &str) -> (r: scraper::Html)
    ensures
        r == *html_document(text@),
{
    scraper::Html::parse_document(text)
}

/// Relies on `scraper::Selector::parse`: `None` when the selector is refused.
#[verifier::external_body]
pub(crate) fn css(selector: &str) -> (r: Option<scraper::Selector>)
    ensures
        r == css_selector(selector@),
{
    scraper::Selector::parse(selector).ok()
}

/// Relies on `scraper::Html::select`: the matching elements in document
/// order.
#[verifier::external_body]
pub(crate) fn select_in_document<'a>(
    doc: &'a scraper::Html,
    selector: &scraper::Selector,
) -> (r: Vec<scraper::ElementRef<'a>>)
    ensures
        r@ == document_matches(doc, *selector),
{
    doc.select(selector).collect()
}

/// Relies on `scraper::ElementRef::select`: the matching descendants in
/// document order.
#[verifier::external_body]
pub(crate) fn select_in_element<'a>(
    el: &scraper::ElementRef<'a>,
    selector: &scraper::Selector,
) -> (r: Vec<scraper::ElementRef<'a>>)
    ensures
        r@ == element_matches(*el, *selector),
{
    el.select(selector).collect()
}

/// Relies on `scraper::ElementRef::text`: the element's text nodes joined.
#[verifier::external_body]
pub(crate) fn inner_text(el: &scraper::ElementRef) -> (r: String)
    ensures
        r@ == element_text(*el),
{
    el.text().collect::<String>()
}

/// Relies on `scraper::ElementRef::attr`: the value of an attribute, if the
/// element has it.
#[verifier::external_body]
pub(crate) fn attribute(el: &scraper::ElementRef, name: &str) -> (r: Option<String>)
    ensures
        element_attr(*el, name@) == (match r {
            Some(v) => Some(v@),
            None => None,
        }),
{
    el.attr(name).map(|v| v.to_string())
}

} // verus!
