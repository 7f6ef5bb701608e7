use crawlers::date::Date;
use crawlers::error::ErrorKind;
use crawlers::source::Source;
use crawlers::storage::{SupabaseStorageClient, Upload};

fn pairs(headers: &Vec<(String, String)>) -> Vec<(&str, &str)> {
    headers.iter().map(|(k, v)| (k.as_str(), v.as_str())).collect()
}

#[test]
fn dates_in_iso_notation() {
    let iso = |year, month, day| -> String { Date { year, month, day }.iso_chars().iter().collect() };
    assert_eq!(iso(2024, 1, 5), "2024-01-05");
    assert_eq!(iso(1999, 12, 31), "1999-12-31");
    assert_eq!(iso(5, 10, 9), "0005-10-09");
    assert_eq!(iso(0, 1, 1), "0000-01-01");
    assert_eq!(iso(-44, 3, 15), "-0044-03-15");
    assert_eq!(iso(12345, 6, 7), "+12345-06-07");
    assert_eq!(iso(i32::MIN, 1, 1), "-2147483648-01-01");
}

#[test]
fn one_file_per_source_and_day() {
    let date = Date { year: 2025, month: 3, day: 9 };
    let upload = Upload::markdown(&date, Source::HackerNews, "# Story".to_string());
    assert_eq!(upload.path, "2025-03-09/hacker-news.md");
    assert_eq!(upload.content, "# Story");
    assert_eq!(upload.content_type, "text/markdown");
    let paths: Vec<String> = [
        Source::GithubTrending,
        Source::HackerNews,
        Source::XaiSearch,
        Source::CustomSite,
        Source::OpenRouter,
        Source::McpRankings,
    ]
    .iter()
    .map(|source| Upload::markdown(&date, *source, String::new()).path)
    .collect();
    assert_eq!(
        paths,
        vec![
            "2025-03-09/github-trending.md",
            "2025-03-09/hacker-news.md",
            "2025-03-09/xai-news.md",
            "2025-03-09/custom-site.md",
            "2025-03-09/openrouter-rankings.md",
            "2025-03-09/mcp-rankings.md",
        ]
    );
}

#[test]
fn the_address_of_an_object() {
    let client = SupabaseStorageClient::new("https://p.supabase.co/storage/v1//", "key", "daily");
    assert_eq!(
        client.object_url("2025-03-09/hacker-news.md"),
        "https://p.supabase.co/storage/v1/object/daily/2025-03-09/hacker-news.md"
    );
    assert_eq!(
        client.object_url("//2025-03-09/x.md"),
        "https://p.supabase.co/storage/v1/object/daily/2025-03-09/x.md"
    );
}

#[test]
fn an_upload_asks_the_storage_to_overwrite() {
    let client = SupabaseStorageClient::new("https://p.supabase.co/storage/v1", "key", "daily");
    let first = client.upload_file("/2025-03-09/xai-news.md", "one".to_string(), "text/markdown");
    let second = client.upload_file("2025-03-09/xai-news.md", "two".to_string(), "text/markdown");
    assert_eq!(first.url, "https://p.supabase.co/storage/v1/object/daily/2025-03-09/xai-news.md");
    assert_eq!(first.url, second.url);
    assert_eq!(first.body, "one");
    assert_eq!(second.body, "two");
    let expected = vec![
        ("apikey", "key"),
        ("Authorization", "Bearer key"),
        ("Content-Type", "text/markdown"),
        ("x-upsert", "true"),
    ];
    assert_eq!(pairs(&first.headers), expected);
    assert_eq!(pairs(&second.headers), expected);
}

#[test]
fn what_an_upload_comes_to() {
    assert!(SupabaseStorageClient::upload_outcome("https://s/object/b/p.md", true, "").is_ok());
    let e = SupabaseStorageClient::upload_outcome("https://s/object/b/p.md", false, "denied")
        .unwrap_err();
    assert_eq!(e.kind(), ErrorKind::StorageUpload);
    assert_eq!(e.detail(), "Failed to upload to Supabase Storage (https://s/object/b/p.md): denied");
    assert_eq!(
        e.message(),
        "Storage upload failed: Failed to upload to Supabase Storage (https://s/object/b/p.md): denied"
    );
}
