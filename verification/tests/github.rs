use crawlers::config::{Config, Settings};
use crawlers::date::Date;
use crawlers::error::ErrorKind;
use crawlers::github::{parse_trending, repositories_from, GithubTrendingFetcher, Repository};

const GO_PAGE: &str = r#"<html><body><main>
<article class="Box-row">
  <h2 class="h3 lh-condensed"><a href="/golang/go"> golang / <b>go</b> </a></h2>
  <p class="col-9 color-fg-muted">
     The Go programming language
  </p>
  <a href="/golang/go/stargazers"> 123,456 </a>
</article>
<article class="Box-row">
  <h2 class="h3"><span>no link here</span></h2>
  <p class="col-9">An entry without a name</p>
</article>
<article class="Box-row">
  <h2 class="h3"><a href="/gin-gonic/gin">gin</a></h2>
</article>
</main></body></html>"#;

fn config(languages: &str) -> Config {
    Config::from_settings(Settings {
        supabase_url: Some("https://p.supabase.co".to_string()),
        supabase_key: Some("key".to_string()),
        supabase_bucket: Some("daily".to_string()),
        languages: Some(languages.to_string()),
        gemini_api_key: None,
        xai_api_key: None,
        custom_site_url: None,
    })
    .unwrap()
}

fn fields(r: &Repository) -> (&str, Option<&str>, &str, &str) {
    (r.name.as_str(), r.description.as_deref(), r.link.as_str(), r.stars.as_str())
}

const GO_SECTION: &str = "\n# golang/go\n\n**Stars**: 123456\n\n[View Repository](https://github.com/golang/go)\n\nThe Go programming language\n";
const GIN_SECTION: &str = "\n# gin-gonic/gin\n\n**Stars**: 0\n\n[View Repository](https://github.com/gin-gonic/gin)\n\nNo description provided.\n";

#[test]
fn the_repositories_of_a_trending_page() {
    let repositories = parse_trending(GO_PAGE).unwrap();
    assert_eq!(repositories.len(), 2);
    assert_eq!(
        fields(&repositories[0]),
        ("golang/go", Some("The Go programming language"), "https://github.com/golang/go", "123456")
    );
    assert_eq!(
        fields(&repositories[1]),
        ("gin-gonic/gin", None, "https://github.com/gin-gonic/gin", "0")
    );
    assert!(parse_trending("<html><body><p>nothing trends</p></body></html>").unwrap().is_empty());
}

#[test]
fn repositories_from_the_fields_of_the_entries() {
    let text = |s: &str| Some(vec![s.to_string()]);
    let hrefs = vec![Some("//a/b".to_string()), None, Some("c/d".to_string())];
    let descriptions = vec![Some(vec![" two ".to_string(), "nodes ".to_string()]), text("lost")];
    let stars = vec![text(" 1,0,2 "), text("9"), None];
    let repositories = repositories_from(&hrefs, &descriptions, &stars);
    assert_eq!(repositories.len(), 2);
    assert_eq!(fields(&repositories[0]), ("a/b", Some("two nodes"), "https://github.com/a/b", "102"));
    assert_eq!(fields(&repositories[1]), ("c/d", None, "https://github.com/c/d", "0"));
}

#[test]
fn a_language_that_could_not_be_fetched_is_passed_over() {
    let fetcher = GithubTrendingFetcher::new(&config("rust,go")).unwrap();
    assert_eq!(fetcher.languages, vec!["rust", "go"]);
    let date = Date { year: 2025, month: 3, day: 9 };
    let pages = vec![None, Some(GO_PAGE.to_string())];
    let upload = fetcher.process_on(&pages, &date).unwrap().unwrap();
    assert_eq!(upload.path, "2025-03-09/github-trending.md");
    assert_eq!(upload.content_type, "text/markdown");
    assert_eq!(upload.content, format!("{}\n---\n{}", GO_SECTION, GIN_SECTION));
}

#[test]
fn the_sections_of_all_pages_go_into_one_document() {
    let fetcher = GithubTrendingFetcher::new(&config("rust,go")).unwrap();
    let date = Date { year: 2025, month: 3, day: 9 };
    let pages = vec![Some(GO_PAGE.to_string()), None, Some(GO_PAGE.to_string())];
    let upload = fetcher.process_on(&pages, &date).unwrap().unwrap();
    assert_eq!(
        upload.content,
        [GO_SECTION, GIN_SECTION, GO_SECTION, GIN_SECTION].join("\n---\n")
    );
}

#[test]
fn without_repositories_there_is_no_file() {
    let fetcher = GithubTrendingFetcher::new(&config("rust")).unwrap();
    let date = Date { year: 2025, month: 3, day: 9 };
    assert!(fetcher.process_on(&vec![None, None], &date).unwrap().is_none());
    assert!(fetcher.process_on(&Vec::new(), &date).unwrap().is_none());
    let empty = vec![Some("<html><body></body></html>".to_string())];
    assert!(fetcher.process_on(&empty, &date).unwrap().is_none());
}

#[test]
fn the_file_of_the_present_day() {
    let fetcher = GithubTrendingFetcher::new(&config("go")).unwrap();
    let upload = fetcher.process(&vec![Some(GO_PAGE.to_string())]).unwrap().unwrap();
    let (date, file) = upload.path.split_once('/').unwrap();
    assert_eq!(file, "github-trending.md");
    let parts: Vec<&str> = date.split('-').collect();
    assert_eq!(parts.len(), 3);
    assert_eq!((parts[0].len(), parts[1].len(), parts[2].len()), (4, 2, 2));
    assert!(parts[0].parse::<u32>().unwrap() >= 2024);
    assert!((1..=12).contains(&parts[1].parse::<u32>().unwrap()));
    assert!((1..=31).contains(&parts[2].parse::<u32>().unwrap()));
}

#[test]
fn a_fetcher_needs_a_language() {
    let e = match GithubTrendingFetcher::new(&config(" , ")) {
        Ok(_) => panic!("a fetcher without languages"),
        Err(e) => e,
    };
    assert_eq!(e.kind(), ErrorKind::Config);
    assert_eq!(e.detail(), "LANGUAGES environment variable must be set and non-empty");
}

#[test]
fn the_address_and_the_name_of_the_trending_crawler() {
    let fetcher = GithubTrendingFetcher::new(&config("rust")).unwrap();
    assert_eq!(fetcher.name(), "GitHub Trending");
    assert_eq!(fetcher.trending_url("rust"), "https://github.com/trending/rust?since=daily");
    assert_eq!(fetcher.trending_url(""), "https://github.com/trending?since=daily");
    assert_eq!(
        fetcher.supabase_client.object_url("x.md"),
        "https://p.supabase.co/storage/v1/object/daily/x.md"
    );
    let repository = Repository {
        name: "a/b".to_string(),
        description: Some("It does things.".to_string()),
        link: "https://github.com/a/b".to_string(),
        stars: "7".to_string(),
    };
    assert_eq!(
        fetcher.stylize_repository_info(&repository),
        "\n# a/b\n\n**Stars**: 7\n\n[View Repository](https://github.com/a/b)\n\nIt does things.\n"
    );
}
