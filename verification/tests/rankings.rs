use crawlers::config::{Config, Settings};
use crawlers::date::Date;
use crawlers::error::ErrorKind;
use crawlers::fields::{metric_at, raw_text_of, require_selector, text_at, text_of};
use crawlers::mcp_rankings::{servers_from, McpRankingsCrawler, McpServer};
use crawlers::openrouter::{models_from, ModelRanking, OpenRouterCrawler};

fn config() -> Config {
    Config::from_settings(Settings {
        supabase_url: Some("https://p.supabase.co".to_string()),
        supabase_key: Some("key".to_string()),
        supabase_bucket: Some("daily".to_string()),
        languages: None,
        gemini_api_key: None,
        xai_api_key: None,
        custom_site_url: None,
    })
    .unwrap()
}

const SERVERS_PAGE: &str = r#"<html><body><table>
<tr><td class="name"> alpha </td><td class="description">First <b>server</b></td><td class="stars">1,234 stars</td></tr>
<tr><td class="description">A row without a name</td><td class="stars">77</td></tr>
<tr><td><h3>beta</h3></td><td><p> Second server </p></td></tr>
<tr><td class="title">gamma</td><td class="desc">Third</td><td class="star-count">★ 9</td></tr>
<tr><td class="name">   </td><td class="stars">5</td></tr>
</table></body></html>"#;

const MODELS_PAGE: &str = r#"<html><body><table>
<tr><td class="model-name">one</td><td class="score">98</td></tr>
<tr><td>nameless</td><td class="score">50</td></tr>
<tr><td class="name">two</td><td class="rating">87 points</td></tr>
<tr><td><h4>three</h4></td></tr>
</table></body></html>"#;

fn server(s: &McpServer) -> (usize, &str, &str, u32) {
    (s.rank, s.name.as_str(), s.description.as_str(), s.stars)
}

fn model(m: &ModelRanking) -> (usize, &str, u32) {
    (m.rank, m.name.as_str(), m.score)
}

#[test]
fn a_row_without_a_name_takes_no_rank() {
    let crawler = McpRankingsCrawler::new(&config()).unwrap();
    let servers = crawler.parse_rankings(SERVERS_PAGE).unwrap();
    assert_eq!(servers.len(), 3);
    assert_eq!(server(&servers[0]), (1, "alpha", "First server", 1234));
    assert_eq!(server(&servers[1]), (2, "beta", "Second server", 0));
    assert_eq!(server(&servers[2]), (3, "gamma", "Third", 9));
    assert!(crawler.parse_rankings("<html><body></body></html>").unwrap().is_empty());
}

#[test]
fn servers_from_the_fields_of_the_rows() {
    let text = |s: &str| Some(vec![s.to_string()]);
    let names = vec![text(" a "), None, text(""), text("b")];
    let descriptions = vec![None, text("x"), text("y")];
    let stars = vec![Some(vec!["1".to_string(), "2".to_string()]), text("3"), text("4"), text("none")];
    let servers = servers_from(&names, &descriptions, &stars);
    assert_eq!(servers.len(), 2);
    assert_eq!(server(&servers[0]), (1, "a", "", 12));
    assert_eq!(server(&servers[1]), (2, "b", "", 0));
    assert_eq!(metric_at(&stars, 1), 3);
    assert_eq!(metric_at(&stars, 4), 0);
}

#[test]
fn the_ranking_of_servers_as_a_table() {
    let crawler = McpRankingsCrawler::new(&config()).unwrap();
    assert_eq!(crawler.name(), "MCP Rankings");
    let date = Date { year: 2025, month: 3, day: 9 };
    let upload = crawler.process_rankings_on(SERVERS_PAGE, &date).unwrap().unwrap();
    assert_eq!(upload.path, "2025-03-09/mcp-rankings.md");
    assert_eq!(upload.content_type, "text/markdown");
    assert_eq!(
        upload.content,
        "# MCP Server Rankings\n\n*Fetched on 2025-03-09*\n\n\
         | Rank | Server Name | Description | Stars |\n\
         |------|-------------|-------------|-------|\n\
         | 1 | alpha | First server | 1234 |\n\
         | 2 | beta | Second server | 0 |\n\
         | 3 | gamma | Third | 9 |\n"
    );
    let servers = vec![McpServer::new(1, "s".to_string(), "d".to_string(), 2)];
    assert_eq!(
        crawler.format_servers_markdown(&servers, &date),
        "# MCP Server Rankings\n\n*Fetched on 2025-03-09*\n\n| Rank | Server Name | Description | Stars |\n|------|-------------|-------------|-------|\n| 1 | s | d | 2 |\n"
    );
    assert!(crawler.rankings_upload(&Vec::new(), &date).is_none());
    assert!(crawler.process_rankings_on("<html></html>", &date).unwrap().is_none());
}

#[test]
fn the_ranking_of_models() {
    let crawler = OpenRouterCrawler::new(&config()).unwrap();
    assert_eq!(crawler.name(), "OpenRouter");
    let models = crawler.parse_rankings(MODELS_PAGE).unwrap();
    assert_eq!(models.len(), 3);
    assert_eq!(model(&models[0]), (1, "one", 98));
    assert_eq!(model(&models[1]), (2, "two", 87));
    assert_eq!(model(&models[2]), (3, "three", 0));
    let date = Date { year: 2025, month: 12, day: 31 };
    let upload = crawler.process_rankings_on(MODELS_PAGE, &date).unwrap().unwrap();
    assert_eq!(upload.path, "2025-12-31/openrouter-rankings.md");
    assert_eq!(
        upload.content,
        "# OpenRouter Model Rankings\n\n*Fetched on 2025-12-31*\n\n\
         | Rank | Model Name | Score |\n\
         |------|------------|-------|\n\
         | 1 | one | 98 |\n\
         | 2 | two | 87 |\n\
         | 3 | three | 0 |\n"
    );
    assert!(crawler.process_rankings_on("<p>no table</p>", &date).unwrap().is_none());
    let text = |s: &str| Some(vec![s.to_string()]);
    let models = models_from(&vec![None, text("m")], &vec![text("1"), text("2.5")]);
    assert_eq!(models.len(), 1);
    assert_eq!(model(&models[0]), (1, "m", 25));
    let one = vec![ModelRanking::new(4, "x".to_string(), 10)];
    assert!(crawler.format_rankings_markdown(&one, &date).ends_with("| 4 | x | 10 |\n"));
}

#[test]
fn the_rankings_of_the_present_day() {
    let servers = McpRankingsCrawler::new(&config()).unwrap();
    let upload = servers.process_rankings(SERVERS_PAGE).unwrap().unwrap();
    let date = upload.path.strip_suffix("/mcp-rankings.md").unwrap().to_string();
    assert_eq!(date.len(), 10);
    assert!(upload.content.contains(&format!("*Fetched on {}*", date)));
    let models = OpenRouterCrawler::new(&config()).unwrap();
    let upload = models.process_rankings(MODELS_PAGE).unwrap().unwrap();
    assert!(upload.path.ends_with("/openrouter-rankings.md"));
}

#[test]
fn a_selector_that_cannot_be_built_is_an_error_of_the_structure() {
    assert!(require_selector("tr, .name", true, "Invalid selector: ").is_ok());
    assert!(require_selector("a[href*='/stargazers']", false, "Failed: ").is_ok());
    let e = require_selector("div[", true, "Invalid selector: ").unwrap_err();
    assert_eq!(e.kind(), ErrorKind::Parse);
    let cause = e.detail().strip_prefix("Invalid selector: ").unwrap().to_string();
    assert!(!cause.is_empty());
    assert_ne!(cause, "div[");
    assert_eq!(e.message(), format!("Parsing error: Invalid selector: {}", cause));
    let e = require_selector("div[", false, "Failed to parse name selector: ").unwrap_err();
    assert_eq!(e.kind(), ErrorKind::HtmlParse);
    assert_eq!(e.detail(), &format!("Failed to parse name selector: {}", cause));
    assert!(require_selector("", true, "Invalid selector: ").is_err());
}

#[test]
fn the_text_of_an_element_is_its_text_nodes_trimmed() {
    let nodes = vec!["  Hello ".to_string(), "world\n".to_string()];
    assert_eq!(raw_text_of(&nodes), "  Hello world\n");
    assert_eq!(text_of(&nodes), "Hello world");
    assert_eq!(text_of(&Vec::new()), "");
    let column = vec![Some(nodes), None];
    assert_eq!(text_at(&column, 0).as_deref(), Some("Hello world"));
    assert_eq!(text_at(&column, 1), None);
    assert_eq!(text_at(&column, 2), None);
}
