//! The HTML parser and CSS selector engine of `scraper`, seen through their
//! results. A compiled selector travels with the text it was compiled from,
//! and a parsed page with the text it was parsed from; neither can be built
//! in any other way, so what a selection yields is a function of those two
//! texts.
use vstd::prelude::*;

use scraper::{Html, Selector};

use crate::text::string_views;

verus! {

#[verifier::external_type_specification]
#[verifier::external_body]
pub struct ExHtml(scraper::Html);

#[verifier::external_type_specification]
#[verifier::external_body]
pub struct ExSelector(scraper::Selector);

/// Whether `scraper::Selector::parse` accepts a selector text.
pub uninterp spec fn selector_parses(css: Seq<char>) -> bool;

/// The texts of the elements of the page `body` that the selector `css`
/// matches, in document order, as `scraper` finds them.
pub uninterp spec fn selected_texts(body: Seq<char>, css: Seq<char>) -> Seq<Seq<char>>;

/// A selector compiled from the text it keeps.
pub struct CompiledSelector {
    css: String,
    sel: Selector,
}

impl View for CompiledSelector {
    type V = Seq<char>;

    closed spec fn view(&self) -> Seq<char> {
        self.css@
    }
}

/// A parsed page, with the text it was parsed from.
pub struct ParsedPage {
    text: String,
    doc: Html,
}

impl View for ParsedPage {
    type V = Seq<char>;

    closed spec fn view(&self) -> Seq<char> {
        self.text@
    }
}

/// Relies on `scraper::Selector::parse`: whether it accepts a selector list
/// depends on the text alone.
#[verifier::external_body]
pub(crate) fn compile_selector(css: &str) -> (r: Option<CompiledSelector>)
    ensures
        r is Some <==> selector_parses(css@),
        r matches Some(c) ==> c@ == css@,
{
    Selector::parse(css).ok().map(|sel| CompiledSelector { css: css.to_string(), sel })
}

/// Relies on `scraper::Html::parse_document`, which builds a tree from any
/// text without failing.
#[verifier::external_body]
pub(crate) fn parse_page(body: &str) -> (r: ParsedPage)
    ensures
        r@ == body@,
{
    ParsedPage { text: body.to_string(), doc: Html::parse_document(body) }
}

/// Relies on `scraper::Html::select`, which yields the elements that match in
/// document order, and on `scraper::ElementRef::text`, whose text nodes are
/// glued into one string per element. Parsing, matching and the texts depend
/// on the page text and the selector text alone.
#[verifier::external_body]
pub(crate) fn select_texts(page: &ParsedPage, sel: &CompiledSelector) -> (r: Vec<String>)
    ensures
        string_views(r@) == selected_texts(page@, sel@),
{
    page.doc.select(&sel.sel).map(|e| e.text().collect::<String>()).collect()
}

/// For each element of the page `body` that the selector `css` matches, in
/// document order, what its first child is: `None` when it has no child,
/// `Some(Some(text))` for a comment with that text, `Some(None)` otherwise.
pub uninterp spec fn first_child_comments(body: Seq<char>, css: Seq<char>) -> Seq<
    Option<Option<Seq<char>>>,
>;

pub open spec fn entry_views(v: Seq<Option<Option<String>>>) -> Seq<Option<Option<Seq<char>>>> {
    v.map_values(
        |e: Option<Option<String>>|
            match e {
                None => None,
                Some(None) => Some(None),
                Some(Some(t)) => Some(Some(t@)),
            },
    )
}

/// Relies on `scraper::Html::select` for the matching elements in document
/// order, on `ego_tree::NodeRef::first_child` and on
/// `scraper::Node::as_comment`, which tells a comment from the other nodes.
#[verifier::external_body]
pub(crate) fn select_first_child_comments(page: &ParsedPage, sel: &CompiledSelector) -> (r: Vec<
    Option<Option<String>>,
>)
    ensures
        entry_views(r@) == first_child_comments(page@, sel@),
{
    page.doc
        .select(&sel.sel)
        .map(|e| e.first_child().map(|c| c.value().as_comment().map(|t| t.to_string())))
        .collect()
}

} // verus!
