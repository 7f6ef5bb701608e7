//! From selected elements to the fields of a record.

use crate::error::{CrawlerError, CrawlerResult, ErrorKind};
use crate::html::{check_selector, selector_error};
use crate::number::{metric, metric_of};
use crate::text::{chars_of, concat, join_strings, trim, trimmed};
use vstd::prelude::*;
use vstd::string::StringExecFns;

verus! {

/// The text of an element: its text nodes one after the other, trimmed.
pub open spec fn element_text(nodes: Seq<Seq<char>>) -> Seq<char> {
    trim(concat(nodes))
}

/// The entry of a column for the row `i`, and nothing where the column is
/// too short.
pub open spec fn cell<T>(column: Seq<Option<T>>, i: int) -> Option<T> {
    if 0 <= i < column.len() {
        column[i]
    } else {
        None
    }
}

/// The text of the element that a column holds for the row `i`.
pub open spec fn cell_text(column: Seq<Option<Seq<Seq<char>>>>, i: int) -> Option<Seq<char>> {
    match cell(column, i) {
        Some(nodes) => Some(element_text(nodes)),
        None => None,
    }
}

/// The name of the row `i`: the text of its name element, where it has one
/// and the text is not empty.
pub open spec fn row_name(names: Seq<Option<Seq<Seq<char>>>>, i: int) -> Option<Seq<char>> {
    match cell_text(names, i) {
        Some(name) => if name.len() > 0 {
            Some(name)
        } else {
            None
        },
        None => None,
    }
}

/// The number that the digits of the row `i`'s element spell, and zero
/// where the row has no such element.
pub open spec fn row_metric(column: Seq<Option<Seq<Seq<char>>>>, i: int) -> nat {
    match cell(column, i) {
        Some(nodes) => metric(concat(nodes)),
        None => 0,
    }
}

/// The error of a selector that cannot be built.
pub open spec fn selector_failure(kind: ErrorKind, complaint: Seq<char>, cause: Seq<char>) -> (
    ErrorKind,
    Seq<char>,
) {
    (kind, complaint + cause)
}

/// The text nodes one after the other.
pub fn raw_text_of(nodes: &Vec<String>) -> (r: String)
    ensures
        r@ == concat(nodes.deep_view()),
{
    proof {
        reveal_strlit("");
        assert(""@ =~= Seq::<char>::empty());
    }
    join_strings(nodes, "")
}

/// The text nodes one after the other, trimmed.
pub fn text_of(nodes: &Vec<String>) -> (r: String)
    ensures
        r@ == element_text(nodes.deep_view()),
{
    trimmed(raw_text_of(nodes).as_str())
}

/// The text of the element that `column` holds for the row `i`.
pub fn text_at(column: &Vec<Option<Vec<String>>>, i: usize) -> (r: Option<String>)
    ensures
        r.deep_view() == cell_text(column.deep_view(), i as int),
{
    if i < column.len() {
        match &column[i] {
            Some(nodes) => Some(text_of(nodes)),
            None => None,
        }
    } else {
        None
    }
}

/// The number that the digits of the row `i`'s element spell.
pub fn metric_at(column: &Vec<Option<Vec<String>>>, i: usize) -> (m: u32)
    ensures
        m == row_metric(column.deep_view(), i as int),
{
    if i < column.len() {
        match &column[i] {
            Some(nodes) => metric_of(&chars_of(raw_text_of(nodes).as_str())),
            None => 0,
        }
    } else {
        0
    }
}

/// Checks that the selector `css` can be built. Where it cannot, the error
/// is of the parsing kind where `parsing` holds and of the HTML kind
/// otherwise, and says `complaint` and then the cause.
pub fn require_selector(css: &str, parsing: bool, complaint: &str) -> (r: CrawlerResult<()>)
    ensures
        selector_error(css@) is None ==> r is Ok,
        selector_error(css@) matches Some(cause) ==> (r matches Err(e) && e@ == selector_failure(
            if parsing {
                ErrorKind::Parse
            } else {
                ErrorKind::HtmlParse
            },
            complaint@,
            cause,
        )),
{
    match check_selector(css) {
        None => Ok(()),
        Some(cause) => {
            let mut text = String::from_str(complaint);
            text.append(cause.as_str());
            if parsing {
                Err(CrawlerError::Parse(text))
            } else {
                Err(CrawlerError::HtmlParse(text))
            }
        },
    }
}

} // verus!
