//! The ranking of servers: what the ranking page lists, and how the list
//! reads as a table in the day's document.

use crate::config::Config;
use crate::date::{utc_today, Date};
use crate::error::{CrawlerResult, ErrorKind};
use crate::fields::{
    cell_text, metric_at, require_selector, row_metric, row_name, selector_failure, text_at,
};
use crate::html::{row_texts, selector_error, text_nodes_by_row};
use crate::number::{decimal, push_decimal};
use crate::source::Source;
use crate::storage::{
    markdown_upload, outcome_view, SupabaseStorageClient, Upload, UploadView,
};
use crate::text::{string_of, trim_end_matches};
use vstd::prelude::*;
use vstd::string::StringExecFns;

verus! {

/// The address of the ranking page.
pub const RANKINGS_URL: &'static str = "https://mcp.so";

/// The selector of the rows of the ranking.
pub const ROW_SELECTOR: &'static str = "tr, .server-row, .mcp-row, .ranking-item";

/// The selector, within a row, of the server's name.
pub const NAME_SELECTOR: &'static str = ".server-name, .name, h3, h4, .title";

/// The selector, within a row, of the server's description.
pub const DESCRIPTION_SELECTOR: &'static str = ".description, .desc, p";

/// The selector, within a row, of the server's star count.
pub const STARS_SELECTOR: &'static str = ".stars, .star-count, .github-stars";

/// A server of the ranking.
#[derive(Debug)]
pub struct McpServer {
    pub rank: usize,
    pub name: String,
    pub description: String,
    pub stars: u32,
}

/// An `McpServer` as contracts see it.
pub struct McpServerView {
    pub rank: nat,
    pub name: Seq<char>,
    pub description: Seq<char>,
    pub stars: nat,
}

impl View for McpServer {
    type V = McpServerView;

    open spec fn view(&self) -> McpServerView {
        McpServerView {
            rank: self.rank as nat,
            name: self.name@,
            description: self.description@,
            stars: self.stars as nat,
        }
    }
}

impl DeepView for McpServer {
    type V = McpServerView;

    open spec fn deep_view(&self) -> McpServerView {
        self@
    }
}

impl McpServer {
    /// The server with the given rank, name, description and stars.
    pub fn new(rank: usize, name: String, description: String, stars: u32) -> (server: Self)
        ensures
            server.rank == rank,
            server.name == name,
            server.description == description,
            server.stars == stars,
    {
        McpServer { rank, name, description, stars }
    }
}

/// The servers of the first `n` rows of a ranking, given for each row the
/// text nodes of its name, of its description and of its star count. A row
/// without a name gives no server and takes no rank: the servers are ranked
/// 1, 2, 3 and so on in the order of their rows.
pub open spec fn servers_of(
    names: Seq<Option<Seq<Seq<char>>>>,
    descriptions: Seq<Option<Seq<Seq<char>>>>,
    stars: Seq<Option<Seq<Seq<char>>>>,
    n: nat,
) -> Seq<McpServerView>
    decreases n,
{
    if n == 0 {
        Seq::empty()
    } else {
        let before = servers_of(names, descriptions, stars, (n - 1) as nat);
        match row_name(names, n - 1) {
            Some(name) => before.push(
                McpServerView {
                    rank: before.len() + 1,
                    name,
                    description: match cell_text(descriptions, n - 1) {
                        Some(text) => text,
                        None => Seq::empty(),
                    },
                    stars: row_metric(stars, n - 1),
                },
            ),
            None => before,
        }
    }
}

/// The servers that the page `html` lists.
pub open spec fn page_servers(html: Seq<char>) -> Seq<McpServerView> {
    let names = row_texts(html, ROW_SELECTOR@, NAME_SELECTOR@);
    servers_of(
        names,
        row_texts(html, ROW_SELECTOR@, DESCRIPTION_SELECTOR@),
        row_texts(html, ROW_SELECTOR@, STARS_SELECTOR@),
        names.len(),
    )
}

/// The error of the first selector of the ranking page that cannot be
/// built, if there is one.
pub open spec fn structure_error() -> Option<(ErrorKind, Seq<char>)> {
    if let Some(e) = selector_error(ROW_SELECTOR@) {
        Some(selector_failure(ErrorKind::Parse, "Invalid selector: "@, e))
    } else if let Some(e) = selector_error(NAME_SELECTOR@) {
        Some(selector_failure(ErrorKind::Parse, "Invalid name selector: "@, e))
    } else if let Some(e) = selector_error(DESCRIPTION_SELECTOR@) {
        Some(selector_failure(ErrorKind::Parse, "Invalid description selector: "@, e))
    } else if let Some(e) = selector_error(STARS_SELECTOR@) {
        Some(selector_failure(ErrorKind::Parse, "Invalid stars selector: "@, e))
    } else {
        None
    }
}

/// The row of a server in the table.
pub open spec fn server_row(server: McpServerView) -> Seq<char> {
    "| "@ + decimal(server.rank) + " | "@ + server.name + " | "@ + server.description + " | "@
        + decimal(server.stars) + " |\n"@
}

/// Every server has a row that is not empty.
pub proof fn lemma_server_row_is_not_empty(server: McpServerView)
    ensures
        server_row(server).len() > 0,
{
    reveal_strlit("| ");
}

/// The rows of the first `n` servers, one after the other.
pub open spec fn server_rows(servers: Seq<McpServerView>, n: nat) -> Seq<char>
    decreases n,
{
    if n == 0 {
        Seq::empty()
    } else {
        server_rows(servers, (n - 1) as nat) + server_row(servers[n - 1])
    }
}

/// The document of the ranking fetched on `date`: a title, the date, and
/// the table of the servers.
pub open spec fn servers_markdown(servers: Seq<McpServerView>, date: Date) -> Seq<char> {
    "# MCP Server Rankings\n\n"@ + "*Fetched on "@ + date.iso_spec() + "*\n\n"@
        + "| Rank | Server Name | Description | Stars |\n"@
        + "|------|-------------|-------------|-------|\n"@ + server_rows(servers, servers.len())
}

/// The day's file of the ranking, or nothing where no server is listed.
pub open spec fn servers_upload(servers: Seq<McpServerView>, date: Date) -> Option<UploadView> {
    if servers.len() > 0 {
        Some(markdown_upload(date, Source::McpRankings, servers_markdown(servers, date)))
    } else {
        None
    }
}

/// What the page `html` comes to on the day `date`: the error of a selector
/// that cannot be built, and else the day's file.
pub open spec fn rankings_outcome(html: Seq<char>, date: Date) -> Result<
    Option<UploadView>,
    (ErrorKind, Seq<char>),
> {
    match structure_error() {
        Some(e) => Err(e),
        None => Ok(servers_upload(page_servers(html), date)),
    }
}

/// The servers of a ranking, given for each of its rows the text nodes of
/// its name, of its description and of its star count. A row without a name
/// is left out and takes no rank, so that the servers are ranked 1, 2, 3
/// and so on in the order of their rows.
pub fn servers_from(
    names: &Vec<Option<Vec<String>>>,
    descriptions: &Vec<Option<Vec<String>>>,
    stars: &Vec<Option<Vec<String>>>,
) -> (r: Vec<McpServer>)
    ensures
        r.deep_view() == servers_of(
            names.deep_view(),
            descriptions.deep_view(),
            stars.deep_view(),
            names@.len(),
        ),
        forall|k: int| 0 <= k < r@.len() ==> (#[trigger] r@[k]).rank == k + 1,
{
    let ghost nm = names.deep_view();
    let ghost ds = descriptions.deep_view();
    let ghost st = stars.deep_view();
    let mut r: Vec<McpServer> = Vec::new();
    let mut i: usize = 0;
    while i < names.len()
        invariant
            i <= names.len(),
            nm == names.deep_view(),
            ds == descriptions.deep_view(),
            st == stars.deep_view(),
            r@.len() <= i,
            r.deep_view() == servers_of(nm, ds, st, i as nat),
            forall|k: int| 0 <= k < r@.len() ==> (#[trigger] r@[k]).rank == k + 1,
        decreases names.len() - i,
    {
        match text_at(names, i) {
            Some(name) => {
                if !name.as_str().is_empty() {
                    let description = match text_at(descriptions, i) {
                        Some(text) => text,
                        None => String::new(),
                    };
                    let count = metric_at(stars, i);
                    let server = McpServer::new(r.len() + 1, name, description, count);
                    r.push(server);
                }
            },
            None => {},
        }
        i += 1;
    }
    r
}

/// The crawler of the server ranking.
pub struct McpRankingsCrawler {
    pub storage_client: SupabaseStorageClient,
}

impl McpRankingsCrawler {
    /// The crawler that `config` describes.
    pub fn new(config: &Config) -> (r: CrawlerResult<Self>)
        ensures
            r matches Ok(crawler) && {
                &&& crawler.storage_client.base_url() == trim_end_matches(
                    config.supabase.storage_url@,
                    '/',
                )
                &&& crawler.storage_client.api_key() == config.supabase.key@
                &&& crawler.storage_client.bucket_name() == config.supabase.bucket@
            },
    {
        Ok(
            McpRankingsCrawler {
                storage_client: SupabaseStorageClient::new(
                    config.supabase.storage_url.as_str(),
                    config.supabase.key.as_str(),
                    config.supabase.bucket.as_str(),
                ),
            },
        )
    }

    /// The name of the crawler.
    pub fn name(&self) -> (n: &'static str)
        ensures
            n@ == Source::McpRankings.name_spec(),
    {
        Source::McpRankings.name()
    }

    /// The servers that the page `html` lists, or the error of the first
    /// selector that cannot be built.
    pub fn parse_rankings(&self, html: &str) -> (r: CrawlerResult<Vec<McpServer>>)
        ensures
            structure_error() matches Some(e) ==> (r matches Err(x) && x@ == e),
            structure_error() is None ==> (r matches Ok(v) && v.deep_view() == page_servers(html@)
                && forall|k: int| 0 <= k < v@.len() ==> (#[trigger] v@[k]).rank == k + 1),
    {
        match require_selector(ROW_SELECTOR, true, "Invalid selector: ") {
            Err(e) => {
                return Err(e);
            },
            Ok(_) => {},
        }
        match require_selector(NAME_SELECTOR, true, "Invalid name selector: ") {
            Err(e) => {
                return Err(e);
            },
            Ok(_) => {},
        }
        match require_selector(DESCRIPTION_SELECTOR, true, "Invalid description selector: ") {
            Err(e) => {
                return Err(e);
            },
            Ok(_) => {},
        }
        match require_selector(STARS_SELECTOR, true, "Invalid stars selector: ") {
            Err(e) => {
                return Err(e);
            },
            Ok(_) => {},
        }
        let names = text_nodes_by_row(html, ROW_SELECTOR, NAME_SELECTOR);
        let descriptions = text_nodes_by_row(html, ROW_SELECTOR, DESCRIPTION_SELECTOR);
        let stars = text_nodes_by_row(html, ROW_SELECTOR, STARS_SELECTOR);
        Ok(servers_from(&names, &descriptions, &stars))
    }

    /// The document of the ranking fetched on `date`.
    pub fn format_servers_markdown(&self, servers: &Vec<McpServer>, date: &Date) -> (r: String)
        ensures
            r@ == servers_markdown(servers.deep_view(), *date),
    {
        let ghost all = servers.deep_view();
        let mut content = String::new();
        content.append("# MCP Server Rankings\n\n");
        content.append("*Fetched on ");
        content.append(string_of(&date.iso_chars()).as_str());
        content.append("*\n\n");
        content.append("| Rank | Server Name | Description | Stars |\n");
        content.append("|------|-------------|-------------|-------|\n");
        let ghost head = content@;
        let mut i: usize = 0;
        while i < servers.len()
            invariant
                i <= servers.len(),
                all == servers.deep_view(),
                content@ == head + server_rows(all, i as nat),
            decreases servers.len() - i,
        {
            let server = &servers[i];
            let mut rank: Vec<char> = Vec::new();
            push_decimal(&mut rank, server.rank as u64);
            let mut count: Vec<char> = Vec::new();
            push_decimal(&mut count, server.stars as u64);
            let ghost before = content@;
            content.append("| ");
            content.append(string_of(&rank).as_str());
            content.append(" | ");
            content.append(server.name.as_str());
            content.append(" | ");
            content.append(server.description.as_str());
            content.append(" | ");
            content.append(string_of(&count).as_str());
            content.append(" |\n");
            assert(content@ == before + server_row(all[i as int]));
            i += 1;
        }
        content
    }

    /// The day's file of the ranking for `date`, given the servers that the
    /// page lists: nothing where it lists none.
    pub fn rankings_upload(&self, servers: &Vec<McpServer>, date: &Date) -> (r: Option<Upload>)
        ensures
            r.deep_view() == servers_upload(servers.deep_view(), *date),
    {
        if servers.len() == 0 {
            return None;
        }
        let content = self.format_servers_markdown(servers, date);
        Some(Upload::markdown(date, Source::McpRankings, content))
    }

    /// What the ranking page `html` comes to on the day `date`: the error of
    /// a selector that cannot be built, and else the day's file, which there
    /// is none of where the page lists no server.
    pub fn process_rankings_on(&self, html: &str, date: &Date) -> (r: CrawlerResult<
        Option<Upload>,
    >)
        ensures
            outcome_view(r) == rankings_outcome(html@, *date),
    {
        let servers = match self.parse_rankings(html) {
            Ok(servers) => servers,
            Err(e) => {
                return Err(e);
            },
        };
        Ok(self.rankings_upload(&servers, date))
    }

    /// What the ranking page `html` comes to on the present day in UTC, as
    /// `process_rankings_on` states it for that day.
    pub fn process_rankings(&self, html: &str) -> (r: CrawlerResult<Option<Upload>>)
        ensures
            exists|date: Date|
                date.in_range() && outcome_view(r) == #[trigger] rankings_outcome(html@, date),
    {
        let today = utc_today();
        self.process_rankings_on(html, &today)
    }
}

} // verus!
