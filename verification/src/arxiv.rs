//! The body text of a scraped paper.
//!
//! A paper's page mixes prose with author blocks, affiliations and headings.
//! The body is taken to begin at the first long, punctuated line that names
//! no address or affiliation, and to consist of the lines from there on
//! that are of that kind and not too short.

use crate::html::{check_selector, first_texts, selector_ok, text_nodes_of_first};
use crate::text::{
    byte_len, byte_len_reaches, chars_of, contains_folded, join, join_all, join_strings,
    lemma_leading, lemma_split_single, lemma_trailing, lines, lines_of, range_contains_char,
    range_contains_folded, replace, string_of, strip_start, trim, trim_bounds, Class,
};
use vstd::prelude::*;
use vstd::string::StringExecFns;

verus! {

/// The length in bytes, once trimmed, from which a valid line can open the
/// body.
pub const BODY_START_LENGTH: usize = 100;

/// The length in bytes, once trimmed, from which a valid line of the body is
/// kept.
pub const BODY_LINE_LENGTH: usize = 40;

/// What a no-break space turns into where UTF-8 is read as Latin-1: the
/// letter A with circumflex.
pub const SPACE_ARTIFACT: char = '\u{c2}';

/// Whether `keyword` is one of the words that mark an affiliation.
pub open spec fn is_affiliation_keyword(keyword: Seq<char>) -> bool {
    ||| keyword == "university"@
    ||| keyword == "lab"@
    ||| keyword == "department"@
    ||| keyword == "institute"@
    ||| keyword == "corresponding author"@
}

/// Whether `line` holds a word that marks an affiliation, in small or
/// capital letters.
pub open spec fn names_affiliation(line: Seq<char>) -> bool {
    ||| contains_folded(line, "university"@)
    ||| contains_folded(line, "lab"@)
    ||| contains_folded(line, "department"@)
    ||| contains_folded(line, "institute"@)
    ||| contains_folded(line, "corresponding author"@)
}

/// Whether `line` reads as prose of the body: it holds no `@`, names no
/// affiliation, takes at least `min_length` bytes once trimmed, and holds a
/// full stop.
pub open spec fn is_valid_line(line: Seq<char>, min_length: nat) -> bool {
    &&& !line.contains('@')
    &&& !names_affiliation(line)
    &&& byte_len(trim(line)) >= min_length
    &&& line.contains('.')
}

/// The number of lines before the first one that can open the body.
pub open spec fn boilerplate_lines(ls: Seq<Seq<char>>) -> nat
    decreases ls.len(),
{
    if ls.len() > 0 && !is_valid_line(ls[0], BODY_START_LENGTH as nat) {
        1 + boilerplate_lines(ls.drop_first())
    } else {
        0
    }
}

/// The index of the line at which the body starts: the first line that can
/// open it, and the first line of all where no line can.
pub open spec fn body_start(ls: Seq<Seq<char>>) -> nat {
    if boilerplate_lines(ls) < ls.len() {
        boilerplate_lines(ls)
    } else {
        0
    }
}

/// A kept line as it is handed out: trimmed, with each artifact of a
/// no-break space replaced by a space.
pub open spec fn normalized(line: Seq<char>) -> Seq<char> {
    replace(trim(line), SPACE_ARTIFACT, seq![' '])
}

/// The lines of `ls` that are kept, each normalized, in order.
pub open spec fn kept_lines(ls: Seq<Seq<char>>) -> Seq<Seq<char>>
    decreases ls.len(),
{
    if ls.len() == 0 {
        Seq::empty()
    } else if is_valid_line(ls.last(), BODY_LINE_LENGTH as nat) {
        kept_lines(ls.drop_last()).push(normalized(ls.last()))
    } else {
        kept_lines(ls.drop_last())
    }
}

/// The body of `text`: its kept lines from the start of the body on, one
/// per line.
pub open spec fn clean_body(text: Seq<char>) -> Seq<char> {
    let ls = lines(text);
    join(kept_lines(ls.skip(body_start(ls) as int)), seq!['\n'])
}

/// The text of a page's content element: its text nodes, one per line, and
/// nothing where the page has no such element.
pub open spec fn full_text(nodes: Option<Seq<Seq<char>>>) -> Seq<char> {
    match nodes {
        Some(parts) => join(parts, seq!['\n']),
        None => Seq::empty(),
    }
}

/// The text nodes of the `body` element of the page `html`, as far as the
/// selector for it can be built.
pub open spec fn body_nodes(html: Seq<char>) -> Option<Seq<Seq<char>>> {
    if selector_ok("body"@) {
        first_texts(html, "body"@)
    } else {
        None
    }
}

/// Decides `names_affiliation`.
fn line_names_affiliation(line: &Vec<char>) -> (b: bool)
    ensures
        b == names_affiliation(line@),
{
    let n = line.len();
    assert(line@.subrange(0, n as int) == line@);
    range_contains_folded(line, 0, n, &chars_of("university")) || range_contains_folded(
        line,
        0,
        n,
        &chars_of("lab"),
    ) || range_contains_folded(line, 0, n, &chars_of("department")) || range_contains_folded(
        line,
        0,
        n,
        &chars_of("institute"),
    ) || range_contains_folded(line, 0, n, &chars_of("corresponding author"))
}

/// Decides `is_valid_line` on a line given as characters.
pub fn line_is_valid(line: &Vec<char>, min_length: usize) -> (b: bool)
    ensures
        b == is_valid_line(line@, min_length as nat),
{
    let n = line.len();
    assert(line@.subrange(0, n as int) == line@);
    if range_contains_char(line, 0, n, '@') {
        return false;
    }
    if line_names_affiliation(line) {
        return false;
    }
    let (lo, hi) = trim_bounds(line, 0, n);
    if !byte_len_reaches(line, lo, hi, min_length) {
        return false;
    }
    range_contains_char(line, 0, n, '.')
}

/// Whether `line` reads as prose of the body. A line with an `@` never
/// does, nor one that holds a word marking an affiliation, whatever its
/// length and punctuation.
pub fn is_valid_body_line(line: &str, min_length: usize) -> (b: bool)
    ensures
        b == is_valid_line(line@, min_length as nat),
        line@.contains('@') ==> !b,
        forall|keyword: Seq<char>|
            is_affiliation_keyword(keyword) && #[trigger] contains_folded(line@, keyword) ==> !b,
{
    let v = chars_of(line);
    line_is_valid(&v, min_length)
}

/// Computes `normalized`.
fn normalize(line: &Vec<char>) -> (r: Vec<char>)
    ensures
        r@ == normalized(line@),
{
    let n = line.len();
    assert(line@.subrange(0, n as int) == line@);
    let (lo, hi) = trim_bounds(line, 0, n);
    let ghost t = line@.subrange(lo as int, hi as int);
    let mut r: Vec<char> = Vec::new();
    let mut i: usize = lo;
    while i < hi
        invariant
            lo <= i <= hi <= line.len(),
            t == line@.subrange(lo as int, hi as int),
            r@ == replace(t.take(i - lo), SPACE_ARTIFACT, seq![' ']),
        decreases hi - i,
    {
        proof {
            assert(t.take(i - lo + 1).drop_last() == t.take(i - lo));
        }
        if line[i] == SPACE_ARTIFACT {
            r.push(' ');
        } else {
            r.push(line[i]);
        }
        i += 1;
    }
    assert(t.take(hi - lo) == t);
    r
}

/// The body of a page's text, computed as `clean_body` states it.
pub fn clean_body_text(text: &str) -> (r: String)
    ensures
        r@ == clean_body(text@),
{
    let v = chars_of(text);
    let ls = lines_of(&v);
    let ghost all = ls.deep_view();
    let mut start: usize = 0;
    let mut found = false;
    assert(all.skip(0) == all);
    while start < ls.len() && !found
        invariant
            start <= ls.len(),
            all == ls.deep_view(),
            !found ==> boilerplate_lines(all) == start + boilerplate_lines(all.skip(start as int)),
            found ==> start < ls.len() && boilerplate_lines(all) == start,
        decreases (ls.len() - start) * 2 + if found { 0int } else { 1int },
    {
        proof {
            assert(all.skip(start as int)[0] =~= ls@[start as int]@);
            assert(all.skip(start as int).drop_first() == all.skip(start + 1));
        }
        if line_is_valid(&ls[start], BODY_START_LENGTH) {
            found = true;
        } else {
            start += 1;
        }
    }
    if !found {
        start = 0;
    }
    let ghost rest = all.skip(start as int);
    let mut kept: Vec<Vec<char>> = Vec::new();
    let mut i: usize = start;
    while i < ls.len()
        invariant
            start <= i <= ls.len(),
            all == ls.deep_view(),
            rest == all.skip(start as int),
            kept.deep_view() == kept_lines(rest.take(i - start)),
        decreases ls.len() - i,
    {
        proof {
            assert(rest.take(i - start + 1).drop_last() == rest.take(i - start));
            assert(rest.take(i - start + 1).last() =~= ls@[i as int]@);
        }
        if line_is_valid(&ls[i], BODY_LINE_LENGTH) {
            let ghost before = kept.deep_view();
            let line = normalize(&ls[i]);
            kept.push(line);
            assert(kept.deep_view() =~~= before.push(normalized(ls@[i as int]@)));
        }
        i += 1;
    }
    assert(rest.take(ls.len() - start) == rest);
    let mut newline: Vec<char> = Vec::new();
    newline.push('\n');
    let body = join_all(&kept, &newline);
    string_of(&body)
}

/// The body text of the page `html`: the text nodes of its `body` element,
/// one per line, cleaned as `clean_body` states it. A page without such an
/// element has an empty body.
pub fn extract_body_text(html: &str) -> (r: String)
    ensures
        r@ == clean_body(full_text(body_nodes(html@))),
{
    let nodes = match check_selector("body") {
        None => text_nodes_of_first(html, "body"),
        Some(_) => None,
    };
    let text = match nodes {
        Some(parts) => join_strings(&parts, "\n"),
        None => String::new(),
    };
    proof {
        reveal_strlit("\n");
        assert("\n"@ == seq!['\n']);
    }
    clean_body_text(text.as_str())
}

/// The line at `body_start` can open the body wherever some line can.
pub proof fn lemma_boilerplate_lines(ls: Seq<Seq<char>>)
    ensures
        boilerplate_lines(ls) <= ls.len(),
        forall|i: int|
            0 <= i < boilerplate_lines(ls) ==> !is_valid_line(
                #[trigger] ls[i],
                BODY_START_LENGTH as nat,
            ),
        boilerplate_lines(ls) < ls.len() ==> is_valid_line(
            ls[boilerplate_lines(ls) as int],
            BODY_START_LENGTH as nat,
        ),
    decreases ls.len(),
{
    if ls.len() > 0 && !is_valid_line(ls[0], BODY_START_LENGTH as nat) {
        let t = ls.drop_first();
        lemma_boilerplate_lines(t);
        assert forall|i: int| 0 <= i < boilerplate_lines(ls) implies !is_valid_line(
            #[trigger] ls[i],
            BODY_START_LENGTH as nat,
        ) by {
            if i > 0 {
                assert(ls[i] == t[i - 1]);
            }
        }
    }
}

/// Where no line of a text can open the body, the body starts at the first
/// line: it is made of the kept lines of the whole text.
pub proof fn lemma_fallback_starts_at_first_line(text: Seq<char>)
    requires
        forall|i: int|
            0 <= i < lines(text).len() ==> !is_valid_line(
                #[trigger] lines(text)[i],
                BODY_START_LENGTH as nat,
            ),
    ensures
        body_start(lines(text)) == 0,
        clean_body(text) == join(kept_lines(lines(text)), seq!['\n']),
{
    let ls = lines(text);
    lemma_boilerplate_lines(ls);
    assert(ls.skip(0) == ls);
}

/// A text that is a single line, and a line that can open the body, comes
/// back as it is but for trimming and the replacement of space artifacts.
pub proof fn lemma_single_paragraph_is_kept(text: Seq<char>)
    requires
        !text.contains('\n'),
        is_valid_line(text, BODY_START_LENGTH as nat),
    ensures
        clean_body(text) == normalized(text),
{
    lemma_leading(text, Class::Space);
    lemma_trailing(strip_start(text, Class::Space), Class::Space);
    assert(text.len() > 0);
    lemma_split_single(text, '\n');
    let ls = lines(text);
    assert(ls.skip(0) == ls);
    assert(kept_lines(ls.drop_last()) == Seq::<Seq<char>>::empty());
}

/// Where the pages of papers are found.
pub struct ArxivClient {}

impl ArxivClient {
    /// A client.
    pub fn new() -> Self {
        ArxivClient {  }
    }

    /// The address of the page of the paper `arxiv_id`.
    pub fn html_url(&self, arxiv_id: &str) -> (url: String)
        ensures
            url@ == "https://arxiv.org/html/"@ + arxiv_id@,
    {
        let mut url = String::from_str("https://arxiv.org/html/");
        url.append(arxiv_id);
        url
    }

    /// The body text of a paper whose page is `html`.
    pub fn fetch_paper_body(&self, html: &str) -> (r: String)
        ensures
            r@ == clean_body(full_text(body_nodes(html@))),
    {
        extract_body_text(html)
    }
}

} // verus!
