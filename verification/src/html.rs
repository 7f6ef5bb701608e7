//! Questions about HTML, answered by the `scraper` crate.
//!
//! Parsing HTML and matching CSS selectors is not this crate's work. What
//! `scraper` answers is a function of the text it is given, so each answer
//! has a name here, and every function of this module is believed to return
//! what its name stands for. The rest of the crate is proved from that alone.
//!
//! Every question parses its page anew. The answers are plain values, so
//! that no parsed page has to be carried through verified code.

use vstd::prelude::*;

verus! {

/// What `scraper::Selector::parse` says against the selector group `css`:
/// the text of its error, or nothing where the group parses.
pub uninterp spec fn selector_error(css: Seq<char>) -> Option<Seq<char>>;

/// The text nodes below the root element of `html` read as a document, in
/// the order in which `scraper` walks them.
pub uninterp spec fn document_texts(html: Seq<char>) -> Seq<Seq<char>>;

/// The text nodes below the root element of `html` read as a fragment, in
/// the order in which `scraper` walks them.
pub uninterp spec fn fragment_texts(html: Seq<char>) -> Seq<Seq<char>>;

/// The text nodes below the first element of the document `html` that
/// matches `css`, or nothing where no element matches.
pub uninterp spec fn first_texts(html: Seq<char>, css: Seq<char>) -> Option<Seq<Seq<char>>>;

/// For each element of the document `html` that matches `rows`, in the order
/// in which `scraper` yields them: the text nodes below its first descendant
/// that matches `field`, or nothing where it has none.
pub uninterp spec fn row_texts(html: Seq<char>, rows: Seq<char>, field: Seq<char>) -> Seq<
    Option<Seq<Seq<char>>>,
>;

/// For each element of the document `html` that matches `rows`, in the order
/// in which `scraper` yields them: the value of the attribute `attr` of its
/// first descendant that matches `field`, or nothing where it has no such
/// descendant or the descendant has no such attribute.
pub uninterp spec fn row_attrs(
    html: Seq<char>,
    rows: Seq<char>,
    field: Seq<char>,
    attr: Seq<char>,
) -> Seq<Option<Seq<char>>>;

/// Whether `css` parses as a selector group.
pub open spec fn selector_ok(css: Seq<char>) -> bool {
    selector_error(css) is None
}

/// Calls `scraper::Selector::parse` on `css` and keeps the text of the
/// error, if there is one. Believed: the result is `selector_error`.
#[verifier::external_body]
pub(crate) fn check_selector(css: &str) -> (r: Option<String>)
    ensures
        r.deep_view() == selector_error(css@),
{
    scraper::Selector::parse(css).err().map(|e| e.to_string())
}

/// Calls `scraper::Html::parse_document`, then `root_element` and `text` on
/// what it built. Believed: the result is `document_texts`. The parser
/// gives every document an `html` element, which is the root that
/// `root_element` looks for.
#[verifier::external_body]
pub(crate) fn text_nodes_of_document(html: &str) -> (r: Vec<String>)
    ensures
        r.deep_view() == document_texts(html@),
{
    let document = scraper::Html::parse_document(html);
    document.root_element().text().map(|t| t.to_string()).collect()
}

/// Calls `scraper::Html::parse_fragment`, then `root_element` and `text` on
/// what it built. Believed: the result is `fragment_texts`. The parser
/// gives every fragment an `html` element, which is the root that
/// `root_element` looks for.
#[verifier::external_body]
pub(crate) fn text_nodes_of_fragment(html: &str) -> (r: Vec<String>)
    ensures
        r.deep_view() == fragment_texts(html@),
{
    let fragment = scraper::Html::parse_fragment(html);
    fragment.root_element().text().map(|t| t.to_string()).collect()
}

/// Calls `scraper::Html::parse_document` and `scraper::Html::select`, takes
/// the first element that the selection yields, and calls `text` on it.
/// Believed: the result is `first_texts`. The selector has to parse.
#[verifier::external_body]
pub(crate) fn text_nodes_of_first(html: &str, css: &str) -> (r: Option<Vec<String>>)
    requires
        selector_ok(css@),
    ensures
        r.deep_view() == first_texts(html@, css@),
{
    let document = scraper::Html::parse_document(html);
    let selector = scraper::Selector::parse(css).unwrap();
    let first = document.select(&selector).next();
    first.map(|e| e.text().map(|t| t.to_string()).collect())
}

/// Calls `scraper::Html::parse_document` and `scraper::Html::select` for the
/// rows, and for each row `scraper::ElementRef::select`, whose first element
/// gives its `text`. Believed: the result is `row_texts`. Both selectors
/// have to parse.
#[verifier::external_body]
pub(crate) fn text_nodes_by_row(html: &str, rows: &str, field: &str) -> (r: Vec<
    Option<Vec<String>>,
>)
    requires
        selector_ok(rows@),
        selector_ok(field@),
    ensures
        r.deep_view() == row_texts(html@, rows@, field@),
{
    let document = scraper::Html::parse_document(html);
    let rows = scraper::Selector::parse(rows).unwrap();
    let field = scraper::Selector::parse(field).unwrap();
    document.select(&rows).map(
        |row| row.select(&field).next().map(|e| e.text().map(|t| t.to_string()).collect()),
    ).collect()
}

/// Calls `scraper::Html::parse_document` and `scraper::Html::select` for the
/// rows, and for each row `scraper::ElementRef::select`, whose first element
/// is asked for its attribute with `scraper::ElementRef::attr`. Believed:
/// the result is `row_attrs`. Both selectors have to parse.
#[verifier::external_body]
pub(crate) fn attrs_by_row(html: &str, rows: &str, field: &str, attr: &str) -> (r: Vec<
    Option<String>,
>)
    requires
        selector_ok(rows@),
        selector_ok(field@),
    ensures
        r.deep_view() == row_attrs(html@, rows@, field@, attr@),
{
    let document = scraper::Html::parse_document(html);
    let rows = scraper::Selector::parse(rows).unwrap();
    let field = scraper::Selector::parse(field).unwrap();
    document.select(&rows).map(
        |row| row.select(&field).next().and_then(|e| e.attr(attr)).map(|a| a.to_string()),
    ).collect()
}

} // verus!
