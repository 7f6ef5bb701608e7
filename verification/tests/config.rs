use crawlers::config::{parse_languages, Config, HackerNewsConfig, Settings};
use crawlers::error::{CrawlerError, ErrorKind};
use crawlers::source::{configured_sources, Source};

fn settings() -> Settings {
    Settings {
        supabase_url: Some("https://project.supabase.co/".to_string()),
        supabase_key: Some("service-key".to_string()),
        supabase_bucket: Some("daily".to_string()),
        languages: Some(" rust, go ,, python ,".to_string()),
        gemini_api_key: Some("gemini".to_string()),
        xai_api_key: None,
        custom_site_url: Some("https://example.org".to_string()),
    }
}

fn config_error(r: Result<Config, CrawlerError>) -> (ErrorKind, String) {
    match r {
        Ok(_) => panic!("a configuration came back"),
        Err(e) => (e.kind(), e.detail().clone()),
    }
}

#[test]
fn a_configuration_from_complete_settings() {
    let config = Config::from_settings(settings()).unwrap();
    assert_eq!(config.supabase.url, "https://project.supabase.co/");
    assert_eq!(config.supabase.storage_url, "https://project.supabase.co/storage/v1");
    assert_eq!(config.supabase.key, "service-key");
    assert_eq!(config.supabase.bucket, "daily");
    assert_eq!(config.languages, vec!["rust", "go", "python"]);
    assert_eq!(config.gemini_api_key.as_deref(), Some("gemini"));
    assert_eq!(config.xai_api_key, None);
    assert_eq!(config.custom_site_url.as_deref(), Some("https://example.org"));
    assert_eq!(config.hacker_news.max_stories, 30);
    assert_eq!(config.hacker_news.min_score_threshold, 20);
    assert_eq!(config.hacker_news.min_html_length, 100);
    assert_eq!(config.hacker_news.max_html_length, 10_000);
}

#[test]
fn the_first_missing_setting_of_the_storage_is_the_error() {
    let mut s = settings();
    s.supabase_bucket = None;
    assert_eq!(
        config_error(Config::from_settings(s)),
        (ErrorKind::Config, "SUPABASE_BUCKET_NAME must be set".to_string())
    );
    let mut s = settings();
    s.supabase_key = None;
    s.supabase_bucket = None;
    assert_eq!(
        config_error(Config::from_settings(s)),
        (ErrorKind::Config, "SUPABASE_SERVICE_ROLE_KEY must be set".to_string())
    );
    let mut s = settings();
    s.supabase_url = None;
    s.supabase_key = None;
    assert_eq!(
        config_error(Config::from_settings(s)),
        (ErrorKind::Config, "SUPABASE_URL must be set".to_string())
    );
}

#[test]
fn languages_are_split_at_commas_and_trimmed() {
    assert_eq!(parse_languages("rust,go"), vec!["rust", "go"]);
    assert_eq!(parse_languages("  c++ "), vec!["c++"]);
    assert!(parse_languages("").is_empty());
    assert!(parse_languages(" , ,").is_empty());
    let mut s = settings();
    s.languages = None;
    assert!(Config::from_settings(s).unwrap().languages.is_empty());
}

#[test]
fn a_required_value_is_handed_out_or_missed() {
    let config = Config::from_settings(settings()).unwrap();
    assert_eq!(config.require_gemini_api_key().unwrap(), "gemini");
    assert_eq!(config.require_custom_site_url().unwrap(), "https://example.org");
    assert_eq!(config.require_languages().unwrap(), &vec!["rust", "go", "python"]);
    let e = config.require_xai_api_key().unwrap_err();
    assert_eq!(e.kind(), ErrorKind::Config);
    assert_eq!(e.detail(), "XAI_API_KEY must be set");
    assert_eq!(e.message(), "Configuration error: XAI_API_KEY must be set");

    let mut s = settings();
    s.languages = Some(" , ".to_string());
    s.gemini_api_key = None;
    s.xai_api_key = Some("xai".to_string());
    s.custom_site_url = None;
    let config = Config::from_settings(s).unwrap();
    assert_eq!(config.require_xai_api_key().unwrap(), "xai");
    assert_eq!(config.require_gemini_api_key().unwrap_err().detail(), "GEMINI_API_KEY must be set");
    assert_eq!(
        config.require_custom_site_url().unwrap_err().detail(),
        "CUSTOM_SITE_URL must be set"
    );
    let e = config.require_languages().unwrap_err();
    assert_eq!(e.kind(), ErrorKind::Config);
    assert_eq!(e.detail(), "LANGUAGES environment variable must be set and non-empty");
}

#[test]
fn the_usual_limits_of_the_story_crawler() {
    let limits = HackerNewsConfig::default();
    assert_eq!(
        (limits.max_stories, limits.min_score_threshold, limits.min_html_length, limits.max_html_length),
        (30, 20, 100, 10_000)
    );
}

#[test]
fn every_kind_of_error_has_its_heading() {
    let d = || "cause".to_string();
    assert_eq!(CrawlerError::HttpRequest(d()).message(), "HTTP request failed: cause");
    assert_eq!(CrawlerError::HtmlParse(d()).message(), "HTML parsing failed: cause");
    assert_eq!(CrawlerError::StorageUpload(d()).message(), "Storage upload failed: cause");
    assert_eq!(CrawlerError::Config(d()).message(), "Configuration error: cause");
    assert_eq!(CrawlerError::EnvVar(d()).message(), "Environment variable error: cause");
    assert_eq!(CrawlerError::Api(d()).message(), "API error: cause");
    assert_eq!(CrawlerError::Parse(d()).message(), "Parsing error: cause");
    assert_eq!(CrawlerError::Io(d()).message(), "IO error: cause");
    assert_eq!(CrawlerError::Io(d()).kind(), ErrorKind::Io);
    assert_eq!(CrawlerError::Parse(d()).detail(), "cause");
}

#[test]
fn a_source_that_is_not_configured_is_left_out_of_the_run() {
    let all = Config::from_settings(Settings { xai_api_key: Some("x".to_string()), ..settings() })
        .unwrap();
    assert_eq!(
        configured_sources(&all),
        vec![
            Source::GithubTrending,
            Source::HackerNews,
            Source::XaiSearch,
            Source::CustomSite,
            Source::OpenRouter,
            Source::McpRankings,
        ]
    );
    let bare = Config::from_settings(Settings {
        languages: None,
        gemini_api_key: None,
        xai_api_key: None,
        custom_site_url: None,
        ..settings()
    })
    .unwrap();
    assert_eq!(configured_sources(&bare), vec![Source::OpenRouter, Source::McpRankings]);
    assert!(!Source::GithubTrending.wanted(&bare));
    assert!(Source::McpRankings.wanted(&bare));
    let some = Config::from_settings(Settings { gemini_api_key: None, ..settings() }).unwrap();
    assert_eq!(
        configured_sources(&some),
        vec![Source::GithubTrending, Source::CustomSite, Source::OpenRouter, Source::McpRankings]
    );
}

#[test]
fn the_names_and_the_files_of_the_sources() {
    let names: Vec<(&str, &str)> = [
        Source::GithubTrending,
        Source::HackerNews,
        Source::XaiSearch,
        Source::CustomSite,
        Source::OpenRouter,
        Source::McpRankings,
    ]
    .iter()
    .map(|s| (s.name(), s.slug()))
    .collect();
    assert_eq!(
        names,
        vec![
            ("GitHub Trending", "github-trending"),
            ("Hacker News", "hacker-news"),
            ("xAI Search", "xai-news"),
            ("Custom Site", "custom-site"),
            ("OpenRouter", "openrouter-rankings"),
            ("MCP Rankings", "mcp-rankings"),
        ]
    );
}
