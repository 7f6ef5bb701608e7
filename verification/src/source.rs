//! The sources that are crawled, and which of them a configuration asks
//! for.

use crate::config::Config;
use vstd::prelude::*;

verus! {

/// A source of the daily documents.
#[derive(Clone, Copy, Debug, PartialEq, Eq, Structural)]
pub enum Source {
    /// The trending repositories.
    GithubTrending,
    /// The top stories of the link aggregator.
    HackerNews,
    /// The news digest.
    XaiSearch,
    /// The configured site.
    CustomSite,
    /// The ranking of models.
    OpenRouter,
    /// The ranking of servers.
    McpRankings,
}

impl Source {
    /// The name of the source's crawler.
    pub open spec fn name_spec(self) -> Seq<char> {
        match self {
            Source::GithubTrending => "GitHub Trending"@,
            Source::HackerNews => "Hacker News"@,
            Source::XaiSearch => "xAI Search"@,
            Source::CustomSite => "Custom Site"@,
            Source::OpenRouter => "OpenRouter"@,
            Source::McpRankings => "MCP Rankings"@,
        }
    }

    /// The name of the source's file, without its extension.
    pub open spec fn slug_spec(self) -> Seq<char> {
        match self {
            Source::GithubTrending => "github-trending"@,
            Source::HackerNews => "hacker-news"@,
            Source::XaiSearch => "xai-news"@,
            Source::CustomSite => "custom-site"@,
            Source::OpenRouter => "openrouter-rankings"@,
            Source::McpRankings => "mcp-rankings"@,
        }
    }

    /// Whether `config` asks for the source. The rankings are always asked
    /// for; each of the others needs one value to be configured: the
    /// trending repositories a language, the stories the key of the
    /// summarizer, the digest the key of its service, and the site its
    /// address.
    pub open spec fn is_wanted(self, config: Config) -> bool {
        match self {
            Source::GithubTrending => config.languages@.len() > 0,
            Source::HackerNews => config.gemini_api_key is Some,
            Source::XaiSearch => config.xai_api_key is Some,
            Source::CustomSite => config.custom_site_url is Some,
            Source::OpenRouter => true,
            Source::McpRankings => true,
        }
    }

    /// The name of the source's crawler.
    pub fn name(self) -> (n: &'static str)
        ensures
            n@ == self.name_spec(),
    {
        match self {
            Source::GithubTrending => "GitHub Trending",
            Source::HackerNews => "Hacker News",
            Source::XaiSearch => "xAI Search",
            Source::CustomSite => "Custom Site",
            Source::OpenRouter => "OpenRouter",
            Source::McpRankings => "MCP Rankings",
        }
    }

    /// The name of the source's file, without its extension.
    pub fn slug(self) -> (s: &'static str)
        ensures
            s@ == self.slug_spec(),
    {
        match self {
            Source::GithubTrending => "github-trending",
            Source::HackerNews => "hacker-news",
            Source::XaiSearch => "xai-news",
            Source::CustomSite => "custom-site",
            Source::OpenRouter => "openrouter-rankings",
            Source::McpRankings => "mcp-rankings",
        }
    }

    /// Decides `is_wanted`.
    pub fn wanted(self, config: &Config) -> (b: bool)
        ensures
            b == self.is_wanted(*config),
    {
        match self {
            Source::GithubTrending => config.languages.len() > 0,
            Source::HackerNews => config.gemini_api_key.is_some(),
            Source::XaiSearch => config.xai_api_key.is_some(),
            Source::CustomSite => config.custom_site_url.is_some(),
            Source::OpenRouter => true,
            Source::McpRankings => true,
        }
    }
}

/// The source alone where `config` asks for it, and nothing otherwise.
pub open spec fn if_wanted(config: Config, source: Source) -> Seq<Source> {
    if source.is_wanted(config) {
        seq![source]
    } else {
        Seq::empty()
    }
}

/// The sources that `config` asks for, in the order in which their crawlers
/// are registered. A source that is not asked for is left out of the run,
/// which is no failure.
pub open spec fn wanted_sources(config: Config) -> Seq<Source> {
    if_wanted(config, Source::GithubTrending) + if_wanted(config, Source::HackerNews) + if_wanted(
        config,
        Source::XaiSearch,
    ) + if_wanted(config, Source::CustomSite) + if_wanted(config, Source::OpenRouter) + if_wanted(
        config,
        Source::McpRankings,
    )
}

/// The sources that `config` asks for, in the order in which their crawlers
/// are registered.
pub fn configured_sources(config: &Config) -> (sources: Vec<Source>)
    ensures
        sources@ == wanted_sources(*config),
{
    let mut sources: Vec<Source> = Vec::new();
    if Source::GithubTrending.wanted(config) {
        sources.push(Source::GithubTrending);
    }
    if Source::HackerNews.wanted(config) {
        sources.push(Source::HackerNews);
    }
    if Source::XaiSearch.wanted(config) {
        sources.push(Source::XaiSearch);
    }
    if Source::CustomSite.wanted(config) {
        sources.push(Source::CustomSite);
    }
    sources.push(Source::OpenRouter);
    sources.push(Source::McpRankings);
    assert(sources@ =~= wanted_sources(*config));
    sources
}

/// No two sources share a file name.
pub proof fn lemma_slugs_differ(a: Source, b: Source)
    requires
        a != b,
    ensures
        a.slug_spec() != b.slug_spec(),
{
    reveal_strlit("github-trending");
    reveal_strlit("hacker-news");
    reveal_strlit("xai-news");
    reveal_strlit("custom-site");
    reveal_strlit("openrouter-rankings");
    reveal_strlit("mcp-rankings");
    assert(a.slug_spec().len() != b.slug_spec().len() || a.slug_spec()[0] != b.slug_spec()[0]);
}

} // verus!
