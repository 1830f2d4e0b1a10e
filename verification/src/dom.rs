//! The boundary to the `scraper` crate: documents, selectors and element
//! handles are carried through as opaque values, and every query on them is
//! a call into that crate. What a query gives is named here, as a function
//! of what it was asked on: the same tree, selector and element give the
//! same answer. Nothing more is claimed of any answer.

use scraper::ElementRef;
use scraper::Html;
use scraper::Selector;
use vstd::prelude::*;

verus! {

/// `scraper::Html`: the tree of a parsed document. Nothing of it is
/// visible here.
#[verifier::external_type_specification]
#[verifier::external_body]
pub struct ExHtml(scraper::Html);

/// `scraper::Selector`: a compiled CSS selector group. Nothing of it is
/// visible here.
#[verifier::external_type_specification]
#[verifier::external_body]
pub struct ExSelector(scraper::Selector);

/// `scraper::ElementRef`: a handle to one element of a tree. Nothing of
/// it is visible here.
#[verifier::external_type_specification]
#[verifier::external_body]
pub struct ExElementRef<'a>(scraper::ElementRef<'a>);

/// The selector that `scraper` compiles from `css`, or `None` where it
/// rejects the text.
pub uninterp spec fn compiled(css: Seq<char>) -> Option<Selector>;

/// The tree that `scraper` builds from the markup of a whole document.
pub uninterp spec fn parsed(markup: Seq<char>) -> Html;

/// The elements of `document` that match `selector`, in the order in which
/// `scraper` yields them.
pub uninterp spec fn document_matches(document: Html, selector: Selector) -> Seq<
    ElementRef<'static>,
>;

/// The descendants of `element` that match `selector`, in the order in
/// which `scraper` yields them.
pub uninterp spec fn element_matches(element: ElementRef, selector: Selector) -> Seq<
    ElementRef<'static>,
>;

/// The value of the attribute `name` of `element`, where it has one.
pub uninterp spec fn element_attribute(element: ElementRef, name: Seq<char>) -> Option<Seq<char>>;

/// The text below `element`: its text nodes, joined in the order in which
/// `scraper` yields them.
pub uninterp spec fn element_text(element: ElementRef) -> Seq<char>;

/// The inner markup of `element`: what `scraper` writes for its children,
/// without its own tags.
pub uninterp spec fn element_markup(element: ElementRef) -> Seq<char>;

/// `scraper::Selector::parse`: compiles a CSS selector group, or gives
/// `None` where the crate rejects the text. Nothing is claimed about which
/// texts it accepts; the result is a function of the text alone.
#[verifier::external_body]
pub(crate) fn compile(css: &str) -> (selector: Option<Selector>)
    ensures
        selector == compiled(css@),
{
    Selector::parse(css).ok()
}

/// `scraper::Html::parse_document`: builds the tree of a whole document.
/// The crate's parser recovers from malformed markup instead of failing.
/// Nothing is claimed about the tree but that it is a function of the
/// markup alone.
#[verifier::external_body]
pub(crate) fn parse_document(markup: &str) -> (document: Html)
    ensures
        document == parsed(markup@),
{
    Html::parse_document(markup)
}

/// `scraper::Html::select`: the elements of the document that match the
/// selector, in the order in which the crate yields them: a function of
/// the tree and the selector alone.
#[verifier::external_body]
pub(crate) fn select_in_document<'a>(document: &'a Html, selector: &Selector) -> (found: Vec<
    ElementRef<'a>,
>)
    ensures
        found@ == document_matches(*document, *selector),
{
    document.select(selector).collect()
}

/// `scraper::ElementRef::select`: the descendants of `element` that match
/// the selector, in the order in which the crate yields them: a function
/// of the element and the selector alone.
#[verifier::external_body]
pub(crate) fn select_in_element<'a>(element: ElementRef<'a>, selector: &Selector) -> (found: Vec<
    ElementRef<'a>,
>)
    ensures
        found@ == element_matches(element, *selector),
{
    element.select(selector).collect()
}

/// `scraper::ElementRef::attr`: the value of the named attribute, where the
/// element carries it: a function of the element and the name alone.
#[verifier::external_body]
pub(crate) fn attribute<'a>(element: ElementRef<'a>, name: &str) -> (value: Option<String>)
    ensures
        value.deep_view() == element_attribute(element, name@),
{
    element.attr(name).map(|v| v.to_string())
}

/// `scraper::ElementRef::text`: the text nodes below the element, joined in
/// the order in which the crate yields them: a function of the element
/// alone.
#[verifier::external_body]
pub(crate) fn text_of<'a>(element: ElementRef<'a>) -> (text: String)
    ensures
        text@ == element_text(element),
{
    element.text().collect()
}

/// `scraper::ElementRef::inner_html`: the children of the element
/// serialized as markup, without the element's own tags: a function of the
/// element alone.
#[verifier::external_body]
pub(crate) fn markup_of<'a>(element: ElementRef<'a>) -> (markup: String)
    ensures
        markup@ == element_markup(element),
{
    element.inner_html()
}

/// The first element of a selection, if it has one.
pub(crate) fn first<'a>(found: &Vec<ElementRef<'a>>) -> (head: Option<ElementRef<'a>>)
    ensures
        head is Some <==> found@.len() > 0,
        head is Some ==> head->0 == found@[0],
{
    if found.len() > 0 {
        Some(found[0])
    } else {
        None
    }
}

} // verus!
