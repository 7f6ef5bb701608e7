use crawlers::config::{Config, HackerNewsConfig, Settings};
use crawlers::date::Date;
use crawlers::error::ErrorKind;
use crawlers::storage::SupabaseStorageClient;
use crawlers::hacker_news::{
    render_story, strip_markup, HNItem, HackerNewsAPI, HackerNewsCrawler, StoryData,
};
use crawlers::text::first_chars;

fn item(id: u64, score: i64, url: Option<&str>, text: Option<&str>) -> HNItem {
    HNItem {
        id,
        title: format!("Story {}", id),
        score,
        url: url.map(|u| u.to_string()),
        text: text.map(|t| t.to_string()),
    }
}

fn crawler() -> HackerNewsCrawler {
    HackerNewsCrawler {
        api: HackerNewsAPI::new(),
        storage_client: SupabaseStorageClient::new("https://p.supabase.co/storage/v1", "key", "daily"),
        gemini_api_key: "key".to_string(),
        config: HackerNewsConfig {
            max_stories: 30,
            min_score_threshold: 20,
            min_html_length: 100,
            max_html_length: 10_000,
        },
    }
}

#[test]
fn a_story_takes_over_the_fields_of_its_item() {
    let story = StoryData::from_hn_item(
        item(7, 42, Some("https://example.org"), Some("<p>text</p>")),
        Some("summary".to_string()),
    );
    assert_eq!(story.story_id, 7);
    assert_eq!(story.title, "Story 7");
    assert_eq!(story.score, 42);
    assert_eq!(story.url.as_deref(), Some("https://example.org"));
    assert_eq!(story.text.as_deref(), Some("<p>text</p>"));
    assert_eq!(story.summary.as_deref(), Some("summary"));
}

#[test]
fn a_story_shows_its_link_or_its_summary_or_its_text_or_a_notice() {
    let summary = || Some("A summary.".to_string());
    let with_link = StoryData::from_hn_item(item(1, 42, Some("https://e.org/a"), Some("<b>t</b>")), summary());
    assert_eq!(
        with_link.to_markdown_string(),
        "# Story 1\n\n**Score**: 42\n\n[View Link](https://e.org/a)"
    );
    let with_summary = StoryData::from_hn_item(item(2, -3, None, Some("<b>t</b>")), summary());
    assert_eq!(with_summary.to_markdown_string(), "# Story 2\n\n**Score**: -3\n\nA summary.");
    let with_text =
        StoryData::from_hn_item(item(3, 0, None, Some("<p>Ask: <i>why</i> &amp; how?</p><p>Now.</p>")), None);
    assert_eq!(with_text.to_markdown_string(), "# Story 3\n\n**Score**: 0\n\nAsk: why & how?Now.");
    let bare = StoryData::from_hn_item(item(4, 100, None, None), None);
    assert_eq!(bare.to_markdown_string(), "# Story 4\n\n**Score**: 100\n\nNo content available.");
    assert_eq!(render_story("T", 5, "body"), "# T\n\n**Score**: 5\n\nbody");
}

#[test]
fn markup_is_taken_off_and_a_summary_is_a_prefix() {
    let api = HackerNewsAPI::new();
    assert_eq!(api.clean_html("<p>Hello <a href=\"x\">world</a></p>"), "Hello world");
    assert_eq!(strip_markup("plain &lt;text&gt;"), "plain <text>");
    assert_eq!(strip_markup(""), "");
    assert_eq!(strip_markup("<br>"), "");
    let long = "é".repeat(250);
    assert_eq!(api.summarize("key", "title", &long).unwrap(), "é".repeat(200));
    assert_eq!(api.summarize("key", "title", "short").unwrap(), "short");
    assert_eq!(first_chars("abcdef", 3), "abc");
    assert_eq!(first_chars("abc", 3), "abc");
    assert_eq!(first_chars("abc", 0), "");
}

#[test]
fn the_addresses_of_the_service_and_the_top_of_the_list() {
    let api = HackerNewsAPI::new();
    assert_eq!(api.top_stories_url(), "https://hacker-news.firebaseio.com/v0/topstories.json");
    assert_eq!(api.story_url(8863), "https://hacker-news.firebaseio.com/v0/item/8863.json");
    assert_eq!(api.get_top_stories(&vec![5, 4, 3, 2, 1], 3), vec![5, 4, 3]);
    assert_eq!(api.get_top_stories(&vec![5, 4], 3), vec![5, 4]);
    assert!(api.get_top_stories(&vec![5, 4], 0).is_empty());
}

#[test]
fn two_of_three_stories_reach_the_threshold() {
    let c = crawler();
    let fetched = vec![
        Some(item(1, 15, Some("https://e.org/1"), None)),
        Some(item(2, 25, Some("https://e.org/2"), None)),
        Some(item(3, 30, Some("https://e.org/3"), None)),
    ];
    let sections: Vec<String> =
        fetched.iter().flatten().filter_map(|i| c.section_of(i)).collect();
    assert_eq!(sections.len(), 2);
    let date = Date { year: 2025, month: 3, day: 9 };
    let upload = c.process_stories_on(&fetched, &date).unwrap();
    assert_eq!(upload.path, "2025-03-09/hacker-news.md");
    assert_eq!(upload.content_type, "text/markdown");
    assert_eq!(
        upload.content,
        "# Story 2\n\n**Score**: 25\n\n[View Link](https://e.org/2)\n\n---\n\n# Story 3\n\n**Score**: 30\n\n[View Link](https://e.org/3)"
    );
}

#[test]
fn a_story_at_the_threshold_stays_and_a_failed_fetch_is_passed_over() {
    let c = crawler();
    assert!(c.section_of(&item(1, 20, None, None)).is_some());
    assert!(c.section_of(&item(1, 19, None, None)).is_none());
    let date = Date { year: 2025, month: 3, day: 9 };
    let fetched = vec![None, Some(item(9, 21, None, None)), None];
    let upload = c.process_stories_on(&fetched, &date).unwrap();
    assert_eq!(upload.content, "# Story 9\n\n**Score**: 21\n\nNo content available.");
    assert!(c.process_stories_on(&vec![None, Some(item(1, 1, None, None))], &date).is_none());
    assert!(c.process_stories_on(&Vec::new(), &date).is_none());
}

#[test]
fn a_text_of_the_configured_length_is_summarized() {
    let c = crawler();
    let sentence = "word ".repeat(60);
    let html = format!("<p>{}</p>", sentence);
    assert!(c.wants_summary(&Some(html.clone())));
    let section = c.section_of(&item(1, 50, None, Some(&html))).unwrap();
    let summary: String = sentence.chars().take(200).collect();
    assert_eq!(section, format!("# Story 1\n\n**Score**: 50\n\n{}", summary));

    let short = "<p>tiny</p>";
    assert!(!c.wants_summary(&Some(short.to_string())));
    assert_eq!(c.section_of(&item(2, 50, None, Some(short))).unwrap(), "# Story 2\n\n**Score**: 50\n\ntiny");
    assert!(c.wants_summary(&Some("x".repeat(100))));
    assert!(!c.wants_summary(&Some("x".repeat(99))));
    assert!(c.wants_summary(&Some("x".repeat(9_999))));
    assert!(!c.wants_summary(&Some("x".repeat(10_000))));
    assert!(c.wants_summary(&Some("é".repeat(50))));
    assert!(!c.wants_summary(&None));
}

#[test]
fn the_story_crawler_needs_the_key_of_the_summarizer() {
    let settings = |key: Option<&str>| Settings {
        supabase_url: Some("https://p.supabase.co".to_string()),
        supabase_key: Some("key".to_string()),
        supabase_bucket: Some("daily".to_string()),
        languages: None,
        gemini_api_key: key.map(|k| k.to_string()),
        xai_api_key: None,
        custom_site_url: None,
    };
    let c = HackerNewsCrawler::new(&Config::from_settings(settings(Some("g"))).unwrap()).unwrap();
    assert_eq!(c.gemini_api_key, "g");
    assert_eq!(c.config.min_score_threshold, 20);
    assert_eq!(c.name(), "Hacker News");
    let e = match HackerNewsCrawler::new(&Config::from_settings(settings(None)).unwrap()) {
        Ok(_) => panic!("a crawler without a key"),
        Err(e) => e,
    };
    assert_eq!((e.kind(), e.detail().as_str()), (ErrorKind::Config, "GEMINI_API_KEY must be set"));
}

#[test]
fn the_stories_of_the_present_day() {
    let upload = crawler().process_stories(&vec![Some(item(1, 99, None, None))]).unwrap();
    assert!(upload.path.ends_with("/hacker-news.md"));
    assert_eq!(upload.path.len(), "2025-03-09/hacker-news.md".len());
    assert!(crawler().process_stories(&vec![None]).is_none());
}
