//! The configured site: its page as plain text, cut to a summary, in the
//! day's document.

use crate::date::{utc_today, Date};
use crate::fields::raw_text_of;
use crate::html::{document_texts, text_nodes_of_document};
use crate::source::Source;
use crate::storage::{markdown_upload, Upload, UploadView};
use crate::text::{concat, first_chars, prefix};
use vstd::prelude::*;
use vstd::string::StringExecFns;

verus! {

/// How many characters of a page its summary holds at most.
pub const SUMMARY_LENGTH: usize = 200;

/// The text of the page `html` without its markup: the text nodes of the
/// document, one after the other.
pub open spec fn page_text(html: Seq<char>) -> Seq<char> {
    concat(document_texts(html))
}

/// The document of the site at `url` with the given summary.
pub open spec fn site_markdown(url: Seq<char>, summary: Seq<char>) -> Seq<char> {
    "# Fetched Content\n\nURL: "@ + url + "\n\n"@ + summary
}

/// The day's file of the site at `url` whose page is `html`.
pub open spec fn site_upload(url: Seq<char>, html: Seq<char>, date: Date) -> UploadView {
    markdown_upload(
        date,
        Source::CustomSite,
        site_markdown(url, prefix(page_text(html), SUMMARY_LENGTH as nat)),
    )
}

/// What is done to the page of the site.
pub struct SiteFetcher {}

impl SiteFetcher {
    /// A fetcher.
    pub fn new() -> Self {
        SiteFetcher {  }
    }

    /// The name of the crawler.
    pub fn name(&self) -> (n: &'static str)
        ensures
            n@ == Source::CustomSite.name_spec(),
    {
        Source::CustomSite.name()
    }

    /// The text of the page `html` without its markup.
    pub fn clean_html(&self, html: &str) -> (r: String)
        ensures
            r@ == page_text(html@),
    {
        let nodes = text_nodes_of_document(html);
        raw_text_of(&nodes)
    }

    /// The summary of a page's text: its first 200 characters.
    pub fn summarize(&self, content: &str) -> (r: String)
        ensures
            r@ == prefix(content@, SUMMARY_LENGTH as nat),
    {
        first_chars(content, SUMMARY_LENGTH)
    }
}

/// The document of the site at `url` with the given summary.
pub fn render_site(url: &str, summary: &str) -> (r: String)
    ensures
        r@ == site_markdown(url@, summary@),
{
    let mut r = String::from_str("# Fetched Content\n\nURL: ");
    r.append(url);
    r.append("\n\n");
    r.append(summary);
    r
}

/// The day's file for `date` of the site at `url`, whose page is `html`.
pub fn process_on(url: &str, html: &str, date: &Date) -> (r: Upload)
    ensures
        r@ == site_upload(url@, html@, *date),
{
    let fetcher = SiteFetcher::new();
    let clean_text = fetcher.clean_html(html);
    let summary = fetcher.summarize(clean_text.as_str());
    let markdown = render_site(url, summary.as_str());
    Upload::markdown(date, Source::CustomSite, markdown)
}

/// The file for the present day in UTC of the site at `url`, whose page is
/// `html`, as `process_on` makes it for that day.
pub fn process(url: &str, html: &str) -> (r: Upload)
    ensures
        exists|date: Date| date.in_range() && r@ == #[trigger] site_upload(url@, html@, date),
{
    let today = utc_today();
    process_on(url, html, &today)
}

} // verus!
