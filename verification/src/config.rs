//! The configuration of a run: where to store, which sources are wanted,
//! and the limits of the story crawler.
//!
//! A value that is not configured is a plain `None` or an empty list. It is
//! the question for a value that a crawler cannot do without that fails.

use crate::error::{CrawlerError, CrawlerResult, ErrorKind};
use crate::text::{
    chars_of, split, split_on, string_of_range, trim, trim_bounds, trim_end_matches,
    without_trailing,
};
use vstd::prelude::*;
use vstd::string::StringExecFns;

verus! {

/// The account of the storage.
#[derive(Debug, Clone)]
pub struct SupabaseConfig {
    pub url: String,
    pub storage_url: String,
    pub key: String,
    pub bucket: String,
}

/// The limits of the story crawler.
#[derive(Debug, Clone, Copy)]
pub struct HackerNewsConfig {
    /// How many of the top stories are fetched.
    pub max_stories: usize,
    /// The score below which a story is dropped.
    pub min_score_threshold: i64,
    /// The length in bytes from which a story's text is summarized.
    pub min_html_length: usize,
    /// The length in bytes from which a story's text is no longer
    /// summarized.
    pub max_html_length: usize,
}

impl Default for HackerNewsConfig {
    fn default() -> (c: Self)
        ensures
            c.max_stories == 30,
            c.min_score_threshold == 20,
            c.min_html_length == 100,
            c.max_html_length == 10_000,
    {
        HackerNewsConfig {
            max_stories: 30,
            min_score_threshold: 20,
            min_html_length: 100,
            max_html_length: 10_000,
        }
    }
}

/// The configuration of a run.
#[derive(Debug, Clone)]
pub struct Config {
    pub supabase: SupabaseConfig,
    pub gemini_api_key: Option<String>,
    pub xai_api_key: Option<String>,
    pub custom_site_url: Option<String>,
    pub languages: Vec<String>,
    pub hacker_news: HackerNewsConfig,
}

/// The values that a configuration is made from, each as it was found or
/// not found where the process keeps its settings.
pub struct Settings {
    pub supabase_url: Option<String>,
    pub supabase_key: Option<String>,
    pub supabase_bucket: Option<String>,
    pub languages: Option<String>,
    pub gemini_api_key: Option<String>,
    pub xai_api_key: Option<String>,
    pub custom_site_url: Option<String>,
}

/// The parts that are not empty once trimmed, each trimmed, in order.
pub open spec fn trimmed_parts(parts: Seq<Seq<char>>) -> Seq<Seq<char>>
    decreases parts.len(),
{
    if parts.len() == 0 {
        Seq::empty()
    } else if trim(parts.last()).len() > 0 {
        trimmed_parts(parts.drop_last()).push(trim(parts.last()))
    } else {
        trimmed_parts(parts.drop_last())
    }
}

/// The languages that a comma-separated list names.
pub open spec fn language_list(list: Seq<char>) -> Seq<Seq<char>> {
    trimmed_parts(split(list, ','))
}

/// The address of the storage service of the project at `url`.
pub open spec fn storage_url(url: Seq<char>) -> Seq<char> {
    trim_end_matches(url, '/') + "/storage/v1"@
}

/// The error of a value that is not configured.
pub open spec fn missing(message: Seq<char>) -> (ErrorKind, Seq<char>) {
    (ErrorKind::Config, message)
}

/// Computes `language_list`.
pub fn parse_languages(list: &str) -> (languages: Vec<String>)
    ensures
        languages.deep_view() == language_list(list@),
{
    let v = chars_of(list);
    let pieces = split_on(&v, ',');
    let ghost all = pieces.deep_view();
    let mut languages: Vec<String> = Vec::new();
    let mut i: usize = 0;
    while i < pieces.len()
        invariant
            i <= pieces.len(),
            all == pieces.deep_view(),
            languages.deep_view() == trimmed_parts(all.take(i as int)),
        decreases pieces.len() - i,
    {
        let piece = &pieces[i];
        let n = piece.len();
        let (lo, hi) = trim_bounds(piece, 0, n);
        proof {
            assert(piece@.subrange(0, n as int) == piece@);
            assert(all.take(i + 1).drop_last() == all.take(i as int));
            assert(all.take(i + 1).last() =~= piece@);
        }
        if hi > lo {
            languages.push(string_of_range(piece, lo, hi));
        }
        i += 1;
    }
    assert(all.take(pieces.len() as int) == all);
    languages
}

impl Config {
    /// The configuration that the settings give. The address, the key and
    /// the bucket of the storage have to be set; the first of them that is
    /// missing is the error. A missing list of languages is an empty list;
    /// the limits of the story crawler are the usual ones.
    pub fn from_settings(settings: Settings) -> (r: CrawlerResult<Config>)
        ensures
            settings.supabase_url is None ==> (r matches Err(e) && e@ == missing(
                "SUPABASE_URL must be set"@,
            )),
            settings.supabase_url is Some && settings.supabase_key is None ==> (r matches Err(e)
                && e@ == missing("SUPABASE_SERVICE_ROLE_KEY must be set"@)),
            settings.supabase_url is Some && settings.supabase_key is Some
                && settings.supabase_bucket is None ==> (r matches Err(e) && e@ == missing(
                "SUPABASE_BUCKET_NAME must be set"@,
            )),
            settings.supabase_url is Some && settings.supabase_key is Some
                && settings.supabase_bucket is Some ==> (r matches Ok(c) && {
                &&& c.supabase.url == settings.supabase_url->0
                &&& c.supabase.storage_url@ == storage_url(settings.supabase_url->0@)
                &&& c.supabase.key == settings.supabase_key->0
                &&& c.supabase.bucket == settings.supabase_bucket->0
                &&& c.gemini_api_key == settings.gemini_api_key
                &&& c.xai_api_key == settings.xai_api_key
                &&& c.custom_site_url == settings.custom_site_url
                &&& c.languages.deep_view() == match settings.languages {
                    Some(list) => language_list(list@),
                    None => Seq::empty(),
                }
                &&& c.hacker_news.max_stories == 30
                &&& c.hacker_news.min_score_threshold == 20
                &&& c.hacker_news.min_html_length == 100
                &&& c.hacker_news.max_html_length == 10_000
            }),
    {
        let url = match settings.supabase_url {
            Some(url) => url,
            None => {
                return Err(CrawlerError::Config(String::from_str("SUPABASE_URL must be set")));
            },
        };
        let key = match settings.supabase_key {
            Some(key) => key,
            None => {
                return Err(
                    CrawlerError::Config(String::from_str("SUPABASE_SERVICE_ROLE_KEY must be set")),
                );
            },
        };
        let bucket = match settings.supabase_bucket {
            Some(bucket) => bucket,
            None => {
                return Err(
                    CrawlerError::Config(String::from_str("SUPABASE_BUCKET_NAME must be set")),
                );
            },
        };
        let mut storage = without_trailing(url.as_str(), '/');
        storage.append("/storage/v1");
        let languages = match &settings.languages {
            Some(list) => parse_languages(list.as_str()),
            None => Vec::new(),
        };
        Ok(
            Config {
                supabase: SupabaseConfig { url, storage_url: storage, key, bucket },
                gemini_api_key: settings.gemini_api_key,
                xai_api_key: settings.xai_api_key,
                custom_site_url: settings.custom_site_url,
                languages,
                hacker_news: HackerNewsConfig::default(),
            },
        )
    }

    /// The key of the summarizer, which has to be set.
    pub fn require_gemini_api_key(&self) -> (r: CrawlerResult<&String>)
        ensures
            self.gemini_api_key matches Some(key) ==> r == Ok::<&String, CrawlerError>(&key),
            self.gemini_api_key is None ==> (r matches Err(e) && e@ == missing(
                "GEMINI_API_KEY must be set"@,
            )),
    {
        match &self.gemini_api_key {
            Some(key) => Ok(key),
            None => Err(CrawlerError::Config(String::from_str("GEMINI_API_KEY must be set"))),
        }
    }

    /// The key of the digest service, which has to be set.
    pub fn require_xai_api_key(&self) -> (r: CrawlerResult<&String>)
        ensures
            self.xai_api_key matches Some(key) ==> r == Ok::<&String, CrawlerError>(&key),
            self.xai_api_key is None ==> (r matches Err(e) && e@ == missing(
                "XAI_API_KEY must be set"@,
            )),
    {
        match &self.xai_api_key {
            Some(key) => Ok(key),
            None => Err(CrawlerError::Config(String::from_str("XAI_API_KEY must be set"))),
        }
    }

    /// The address of the custom site, which has to be set.
    pub fn require_custom_site_url(&self) -> (r: CrawlerResult<&String>)
        ensures
            self.custom_site_url matches Some(url) ==> r == Ok::<&String, CrawlerError>(&url),
            self.custom_site_url is None ==> (r matches Err(e) && e@ == missing(
                "CUSTOM_SITE_URL must be set"@,
            )),
    {
        match &self.custom_site_url {
            Some(url) => Ok(url),
            None => Err(CrawlerError::Config(String::from_str("CUSTOM_SITE_URL must be set"))),
        }
    }

    /// The languages of the trending crawler, of which there has to be at
    /// least one.
    pub fn require_languages(&self) -> (r: CrawlerResult<&Vec<String>>)
        ensures
            self.languages@.len() > 0 ==> r == Ok::<&Vec<String>, CrawlerError>(&self.languages),
            self.languages@.len() == 0 ==> (r matches Err(e) && e@ == missing(
                "LANGUAGES environment variable must be set and non-empty"@,
            )),
    {
        if self.languages.len() == 0 {
            return Err(
                CrawlerError::Config(
                    String::from_str("LANGUAGES environment variable must be set and non-empty"),
                ),
            );
        }
        Ok(&self.languages)
    }
}

} // verus!
