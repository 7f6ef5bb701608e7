//! The link aggregator: which of the top stories make it into the day's
//! document, and how each of them reads there.

use crate::config::{Config, HackerNewsConfig};
use crate::date::{utc_today, Date};
use crate::error::CrawlerResult;
use crate::html::{fragment_texts, text_nodes_of_fragment};
use crate::number::{decimal, push_decimal, push_signed_decimal, signed_decimal};
use crate::source::Source;
use crate::storage::{markdown_upload, SupabaseStorageClient, Upload, UploadView};
use crate::text::{
    byte_len, concat, first_chars, join, join_strings, prefix, string_of, trim_end_matches,
};
use vstd::prelude::*;
use vstd::string::StringExecFns;

verus! {

/// A story as the aggregator's service describes it.
#[derive(Debug)]
pub struct HNItem {
    pub id: u64,
    pub title: String,
    pub score: i64,
    pub url: Option<String>,
    pub text: Option<String>,
}

/// A story as it goes into the document.
#[derive(Debug)]
pub struct StoryData {
    pub story_id: u64,
    pub title: String,
    pub score: i64,
    pub url: Option<String>,
    pub text: Option<String>,
    pub summary: Option<String>,
}

/// How many characters of a text its summary holds at most.
pub const SUMMARY_LENGTH: usize = 200;

/// What a story shows below its score: a link where it has one, else its
/// summary, else its text without markup, else a notice.
pub open spec fn story_content(
    url: Option<Seq<char>>,
    summary: Option<Seq<char>>,
    plain_text: Option<Seq<char>>,
) -> Seq<char> {
    match url {
        Some(u) => "[View Link]("@ + u + ")"@,
        None => match summary {
            Some(s) => s,
            None => match plain_text {
                Some(t) => t,
                None => "No content available."@,
            },
        },
    }
}

/// The section of a story in the document.
pub open spec fn story_markdown(title: Seq<char>, score: int, content: Seq<char>) -> Seq<char> {
    "# "@ + title + "\n\n**Score**: "@ + signed_decimal(score) + "\n\n"@ + content
}

/// Every story has a section that is not empty.
pub proof fn lemma_story_section_is_not_empty(title: Seq<char>, score: int, content: Seq<char>)
    ensures
        story_markdown(title, score, content).len() > 0,
{
    reveal_strlit("# ");
}

/// The text of `html` without its markup: the text nodes of the fragment,
/// one after the other.
pub open spec fn plain_text(html: Seq<char>) -> Seq<char> {
    concat(fragment_texts(html))
}

/// The summary of a text: its first characters.
pub open spec fn summary_of(content: Seq<char>) -> Seq<char> {
    prefix(content, SUMMARY_LENGTH as nat)
}

/// The text of a story without markup, where the story has a text.
pub open spec fn plain(text: Option<String>) -> Option<Seq<char>> {
    match text {
        Some(html) => Some(plain_text(html@)),
        None => None,
    }
}

/// A copy of `o`.
fn copy_of(o: &Option<String>) -> (r: Option<String>)
    ensures
        r == *o,
{
    match o {
        Some(s) => Some(s.clone()),
        None => None,
    }
}

/// The text of `html` without its markup.
pub fn strip_markup(html: &str) -> (r: String)
    ensures
        r@ == plain_text(html@),
{
    let nodes = text_nodes_of_fragment(html);
    proof {
        reveal_strlit("");
        assert(""@ =~= Seq::<char>::empty());
    }
    join_strings(&nodes, "")
}

/// The section of a story with the given title, score and content.
pub fn render_story(title: &str, score: i64, content: &str) -> (r: String)
    ensures
        r@ == story_markdown(title@, score as int, content@),
{
    let mut number: Vec<char> = Vec::new();
    push_signed_decimal(&mut number, score);
    let mut r = String::from_str("# ");
    r.append(title);
    r.append("\n\n**Score**: ");
    r.append(string_of(&number).as_str());
    r.append("\n\n");
    r.append(content);
    r
}

impl StoryData {
    /// The story of `item`, with the given summary.
    pub fn from_hn_item(item: HNItem, summary: Option<String>) -> (story: Self)
        ensures
            story.story_id == item.id,
            story.title == item.title,
            story.score == item.score,
            story.url == item.url,
            story.text == item.text,
            story.summary == summary,
    {
        StoryData {
            story_id: item.id,
            title: item.title,
            score: item.score,
            url: item.url,
            text: item.text,
            summary,
        }
    }

    /// The section of the story, as contracts see it.
    pub open spec fn markdown(&self) -> Seq<char> {
        story_markdown(
            self.title@,
            self.score as int,
            story_content(self.url.deep_view(), self.summary.deep_view(), plain(self.text)),
        )
    }

    /// The section of the story in the document: its title, its score, and
    /// below them its link, or else its summary, or else its text without
    /// markup, or else a notice that there is nothing.
    pub fn to_markdown_string(&self) -> (r: String)
        ensures
            r@ == self.markdown(),
    {
        let content = match &self.url {
            Some(u) => {
                let mut link = String::from_str("[View Link](");
                link.append(u.as_str());
                link.append(")");
                link
            },
            None => match &self.summary {
                Some(s) => s.clone(),
                None => match &self.text {
                    Some(t) => strip_markup(t.as_str()),
                    None => String::from_str("No content available."),
                },
            },
        };
        render_story(self.title.as_str(), self.score, content.as_str())
    }
}

/// The addresses of the aggregator's service, and what is done to a story's
/// text.
pub struct HackerNewsAPI {
    base_url: String,
}

impl HackerNewsAPI {
    /// The address of the service.
    pub closed spec fn base_url(&self) -> Seq<char> {
        self.base_url@
    }

    /// The public service.
    pub fn new() -> (api: Self)
        ensures
            api.base_url() == "https://hacker-news.firebaseio.com/v0"@,
    {
        HackerNewsAPI { base_url: String::from_str("https://hacker-news.firebaseio.com/v0") }
    }

    /// The address of the list of top stories.
    pub fn top_stories_url(&self) -> (url: String)
        ensures
            url@ == self.base_url() + "/topstories.json"@,
    {
        let mut url = self.base_url.clone();
        url.append("/topstories.json");
        url
    }

    /// The address of the story `story_id`.
    pub fn story_url(&self, story_id: u64) -> (url: String)
        ensures
            url@ == self.base_url() + "/item/"@ + decimal(story_id as nat) + ".json"@,
    {
        let mut number: Vec<char> = Vec::new();
        push_decimal(&mut number, story_id);
        let mut url = self.base_url.clone();
        url.append("/item/");
        url.append(string_of(&number).as_str());
        url.append(".json");
        url
    }

    /// The first `limit` of the listed stories, or all of them where fewer
    /// are listed.
    pub fn get_top_stories(&self, ids: &Vec<u64>, limit: usize) -> (top: Vec<u64>)
        ensures
            top@ == if limit <= ids@.len() {
                ids@.take(limit as int)
            } else {
                ids@
            },
    {
        let n = if limit <= ids.len() {
            limit
        } else {
            ids.len()
        };
        let mut top: Vec<u64> = Vec::new();
        let mut i: usize = 0;
        while i < n
            invariant
                i <= n <= ids.len(),
                top@ == ids@.take(i as int),
            decreases n - i,
        {
            top.push(ids[i]);
            i += 1;
        }
        top
    }

    /// The text of `html` without its markup.
    pub fn clean_html(&self, html: &str) -> (r: String)
        ensures
            r@ == plain_text(html@),
    {
        strip_markup(html)
    }

    /// The summary of a story's text: its first 200 characters. It stands
    /// in for a summarizer that may fail, and never fails itself.
    pub fn summarize(&self, _api_key: &str, _title: &str, content: &str) -> (r: CrawlerResult<
        String,
    >)
        ensures
            r matches Ok(s) && s@ == summary_of(content@),
    {
        Ok(first_chars(content, SUMMARY_LENGTH))
    }
}

/// Whether a story's text is summarized: it has one, of a length in bytes
/// from the lower limit up to and without the upper.
pub open spec fn is_summarized(config: HackerNewsConfig, text: Option<String>) -> bool {
    text matches Some(html) && config.min_html_length <= byte_len(html@)
        < config.max_html_length
}

/// The summary that the summarizer makes of a story's text, where the text
/// is summarized.
pub open spec fn story_summary(config: HackerNewsConfig, text: Option<String>) -> Option<
    Seq<char>,
> {
    match text {
        Some(html) => if is_summarized(config, text) {
            Some(summary_of(plain_text(html@)))
        } else {
            None
        },
        None => None,
    }
}

/// The section that a story contributes with the given summary, or nothing
/// where its score is below the threshold.
pub open spec fn story_section_with(
    config: HackerNewsConfig,
    item: HNItem,
    summary: Option<Seq<char>>,
) -> Option<Seq<char>> {
    if item.score < config.min_score_threshold {
        None
    } else {
        Some(
            story_markdown(
                item.title@,
                item.score as int,
                story_content(item.url.deep_view(), summary, plain(item.text)),
            ),
        )
    }
}

/// The section that a story contributes, or nothing where its score is
/// below the threshold.
pub open spec fn story_section(config: HackerNewsConfig, item: HNItem) -> Option<Seq<char>> {
    story_section_with(config, item, story_summary(config, item.text))
}

/// The sections of the stories that were fetched, in the order in which
/// they came in. A story that could not be fetched contributes nothing.
pub open spec fn story_sections(config: HackerNewsConfig, fetched: Seq<Option<HNItem>>) -> Seq<
    Seq<char>,
>
    decreases fetched.len(),
{
    if fetched.len() == 0 {
        Seq::empty()
    } else {
        let before = story_sections(config, fetched.drop_last());
        match fetched.last() {
            Some(item) => match story_section(config, item) {
                Some(section) => before.push(section),
                None => before,
            },
            None => before,
        }
    }
}

/// The number of fetched stories whose score reaches the threshold.
pub open spec fn passing_stories(config: HackerNewsConfig, fetched: Seq<Option<HNItem>>) -> nat
    decreases fetched.len(),
{
    if fetched.len() == 0 {
        0
    } else {
        passing_stories(config, fetched.drop_last()) + match fetched.last() {
            Some(item) => if item.score >= config.min_score_threshold {
                1nat
            } else {
                0nat
            },
            None => 0nat,
        }
    }
}

/// There are as many sections as fetched stories whose score reaches the
/// threshold.
pub proof fn lemma_sections_are_the_passing_stories(
    config: HackerNewsConfig,
    fetched: Seq<Option<HNItem>>,
)
    ensures
        story_sections(config, fetched).len() == passing_stories(config, fetched),
    decreases fetched.len(),
{
    if fetched.len() > 0 {
        lemma_sections_are_the_passing_stories(config, fetched.drop_last());
    }
}

/// The day's file of stories: the sections with a rule between them, or
/// nothing where there is no section.
pub open spec fn stories_upload(
    config: HackerNewsConfig,
    fetched: Seq<Option<HNItem>>,
    date: Date,
) -> Option<UploadView> {
    let sections = story_sections(config, fetched);
    if sections.len() > 0 {
        Some(markdown_upload(date, Source::HackerNews, join(sections, "\n\n---\n\n"@)))
    } else {
        None
    }
}

/// The crawler of the link aggregator.
pub struct HackerNewsCrawler {
    pub api: HackerNewsAPI,
    pub storage_client: SupabaseStorageClient,
    pub gemini_api_key: String,
    pub config: HackerNewsConfig,
}

impl HackerNewsCrawler {
    /// The crawler that `config` describes. It needs the key of the
    /// summarizer.
    pub fn new(config: &Config) -> (r: CrawlerResult<Self>)
        ensures
            config.gemini_api_key matches Some(key) ==> (r matches Ok(crawler) && {
                &&& crawler.gemini_api_key@ == key@
                &&& crawler.config == config.hacker_news
                &&& crawler.api.base_url() == "https://hacker-news.firebaseio.com/v0"@
                &&& crawler.storage_client.base_url() == trim_end_matches(
                    config.supabase.storage_url@,
                    '/',
                )
                &&& crawler.storage_client.api_key() == config.supabase.key@
                &&& crawler.storage_client.bucket_name() == config.supabase.bucket@
            }),
            config.gemini_api_key is None ==> (r matches Err(e) && e@ == crate::config::missing(
                "GEMINI_API_KEY must be set"@,
            )),
    {
        let key = match config.require_gemini_api_key() {
            Ok(key) => key.clone(),
            Err(e) => {
                return Err(e);
            },
        };
        let storage_client = SupabaseStorageClient::new(
            config.supabase.storage_url.as_str(),
            config.supabase.key.as_str(),
            config.supabase.bucket.as_str(),
        );
        Ok(
            HackerNewsCrawler {
                api: HackerNewsAPI::new(),
                storage_client,
                gemini_api_key: key,
                config: config.hacker_news,
            },
        )
    }

    /// The name of the crawler.
    pub fn name(&self) -> (n: &'static str)
        ensures
            n@ == Source::HackerNews.name_spec(),
    {
        Source::HackerNews.name()
    }

    /// Whether the text of a story is handed to the summarizer.
    pub fn wants_summary(&self, text: &Option<String>) -> (b: bool)
        ensures
            b == is_summarized(self.config, *text),
    {
        match text {
            Some(html) => {
                let n = html.as_str().as_bytes().len();
                self.config.min_html_length <= n && n < self.config.max_html_length
            },
            None => false,
        }
    }

    /// The summary of a story's text, where the text is of the configured
    /// length, as far as the summarizer succeeds.
    pub fn summary_for(&self, item: &HNItem) -> (r: Option<String>)
        ensures
            r.deep_view() == story_summary(self.config, item.text),
    {
        if !self.wants_summary(&item.text) {
            return None;
        }
        match &item.text {
            Some(html) => {
                let clean_text = self.api.clean_html(html.as_str());
                match self.api.summarize(
                    self.gemini_api_key.as_str(),
                    item.title.as_str(),
                    clean_text.as_str(),
                ) {
                    Ok(summary) => Some(summary),
                    Err(_) => None,
                }
            },
            None => None,
        }
    }

    /// The section that `item` contributes to the document with the given
    /// summary, or nothing where its score is below the threshold. A story
    /// for which the summarizer failed is handed in without a summary.
    pub fn section_with(&self, item: &HNItem, summary: Option<String>) -> (r: Option<String>)
        ensures
            r.deep_view() == story_section_with(self.config, *item, summary.deep_view()),
            r is Some <==> item.score >= self.config.min_score_threshold,
    {
        if item.score < self.config.min_score_threshold {
            return None;
        }
        let story = StoryData::from_hn_item(
            HNItem {
                id: item.id,
                title: item.title.clone(),
                score: item.score,
                url: copy_of(&item.url),
                text: copy_of(&item.text),
            },
            summary,
        );
        Some(story.to_markdown_string())
    }

    /// The section that `item` contributes to the document, or nothing where
    /// its score is below the threshold. A text of the configured length is
    /// summarized.
    pub fn section_of(&self, item: &HNItem) -> (r: Option<String>)
        ensures
            r.deep_view() == story_section(self.config, *item),
            r is Some <==> item.score >= self.config.min_score_threshold,
    {
        if item.score < self.config.min_score_threshold {
            return None;
        }
        let summary = self.summary_for(item);
        self.section_with(item, summary)
    }

    /// The day's file of stories for `date`, given what each fetch of a
    /// story came to. Stories come in the order given; one that could not be
    /// fetched, or whose score is below the threshold, is left out, and with
    /// no story left there is no file.
    pub fn process_stories_on(&self, fetched: &Vec<Option<HNItem>>, date: &Date) -> (r: Option<
        Upload,
    >)
        ensures
            r.deep_view() == stories_upload(self.config, fetched@, *date),
            r is Some <==> passing_stories(self.config, fetched@) > 0,
    {
        let mut sections: Vec<String> = Vec::new();
        let mut i: usize = 0;
        while i < fetched.len()
            invariant
                i <= fetched.len(),
                sections.deep_view() == story_sections(self.config, fetched@.take(i as int)),
                sections.len() == passing_stories(self.config, fetched@.take(i as int)),
            decreases fetched.len() - i,
        {
            proof {
                assert(fetched@.take(i + 1).drop_last() == fetched@.take(i as int));
            }
            match &fetched[i] {
                Some(item) => match self.section_of(item) {
                    Some(section) => {
                        sections.push(section);
                    },
                    None => {},
                },
                None => {},
            }
            i += 1;
        }
        assert(fetched@.take(fetched.len() as int) == fetched@);
        if sections.len() > 0 {
            let content = join_strings(&sections, "\n\n---\n\n");
            Some(Upload::markdown(date, Source::HackerNews, content))
        } else {
            None
        }
    }

    /// The file of stories for the present day in UTC, as
    /// `process_stories_on` makes it for that day.
    pub fn process_stories(&self, fetched: &Vec<Option<HNItem>>) -> (r: Option<Upload>)
        ensures
            exists|date: Date|
                date.in_range() && r.deep_view() == #[trigger] stories_upload(
                    self.config,
                    fetched@,
                    date,
                ),
            r is Some <==> passing_stories(self.config, fetched@) > 0,
    {
        let today = utc_today();
        self.process_stories_on(fetched, &today)
    }
}

} // verus!
