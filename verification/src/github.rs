//! The trending repositories: what a trending page lists, how a repository
//! reads in the day's document, and what the pages of all languages come
//! to.

use crate::config::Config;
use crate::date::{utc_today, Date};
use crate::error::{CrawlerResult, ErrorKind};
use crate::fields::{cell, element_text, require_selector, selector_failure, text_of};
use crate::html::{attrs_by_row, row_attrs, row_texts, selector_error, text_nodes_by_row};
use crate::source::Source;
use crate::storage::{
    markdown_upload, outcome_view, SupabaseStorageClient, Upload, UploadView,
};
use crate::text::{
    join, join_strings, replace, trim_end_matches, trim_start_matches, without_char,
    without_leading,
};
use vstd::prelude::*;
use vstd::string::StringExecFns;

verus! {

/// The selector of the entries of a trending page.
pub const ARTICLE_SELECTOR: &'static str = "article.Box-row";

/// The selector, within an entry, of the link that names the repository.
pub const NAME_SELECTOR: &'static str = "h2.h3 a";

/// The selector, within an entry, of the description.
pub const DESCRIPTION_SELECTOR: &'static str = "p.col-9";

/// The selector, within an entry, of the link that counts the stars.
pub const STARS_SELECTOR: &'static str = "a[href*='/stargazers']";

/// A repository of a trending page.
#[derive(Debug)]
pub struct Repository {
    pub name: String,
    pub description: Option<String>,
    pub link: String,
    pub stars: String,
}

/// A `Repository` as contracts see it.
pub struct RepositoryView {
    pub name: Seq<char>,
    pub description: Option<Seq<char>>,
    pub link: Seq<char>,
    pub stars: Seq<char>,
}

impl View for Repository {
    type V = RepositoryView;

    open spec fn view(&self) -> RepositoryView {
        RepositoryView {
            name: self.name@,
            description: self.description.deep_view(),
            link: self.link@,
            stars: self.stars@,
        }
    }
}

impl DeepView for Repository {
    type V = RepositoryView;

    open spec fn deep_view(&self) -> RepositoryView {
        self@
    }
}

/// The address of the trending page of `language`, or of all languages
/// where `language` is empty.
pub open spec fn trending_url(language: Seq<char>) -> Seq<char> {
    if language.len() == 0 {
        "https://github.com/trending?since=daily"@
    } else {
        "https://github.com/trending/"@ + language + "?since=daily"@
    }
}

/// The repository of an entry whose name link points to `href`.
pub open spec fn repository_of(
    href: Seq<char>,
    description: Option<Seq<Seq<char>>>,
    stars: Option<Seq<Seq<char>>>,
) -> RepositoryView {
    let name = trim_start_matches(href, '/');
    RepositoryView {
        name,
        description: match description {
            Some(nodes) => Some(element_text(nodes)),
            None => None,
        },
        link: "https://github.com/"@ + name,
        stars: match stars {
            Some(nodes) => replace(element_text(nodes), ',', Seq::empty()),
            None => "0"@,
        },
    }
}

/// The repositories of the first `n` entries of a page, given for each
/// entry where its name link points to, and the text nodes of its
/// description and of its star count. An entry without a name link gives no
/// repository.
pub open spec fn repositories_of(
    hrefs: Seq<Option<Seq<char>>>,
    descriptions: Seq<Option<Seq<Seq<char>>>>,
    stars: Seq<Option<Seq<Seq<char>>>>,
    n: nat,
) -> Seq<RepositoryView>
    decreases n,
{
    if n == 0 {
        Seq::empty()
    } else {
        let before = repositories_of(hrefs, descriptions, stars, (n - 1) as nat);
        match cell(hrefs, n - 1) {
            Some(href) => before.push(
                repository_of(href, cell(descriptions, n - 1), cell(stars, n - 1)),
            ),
            None => before,
        }
    }
}

/// The repositories that the page `html` lists.
pub open spec fn page_repositories(html: Seq<char>) -> Seq<RepositoryView> {
    let hrefs = row_attrs(html, ARTICLE_SELECTOR@, NAME_SELECTOR@, "href"@);
    repositories_of(
        hrefs,
        row_texts(html, ARTICLE_SELECTOR@, DESCRIPTION_SELECTOR@),
        row_texts(html, ARTICLE_SELECTOR@, STARS_SELECTOR@),
        hrefs.len(),
    )
}

/// The error of the first selector of a trending page that cannot be
/// built, if there is one.
pub open spec fn structure_error() -> Option<(ErrorKind, Seq<char>)> {
    if let Some(e) = selector_error(ARTICLE_SELECTOR@) {
        Some(selector_failure(ErrorKind::HtmlParse, "Failed to parse article selector: "@, e))
    } else if let Some(e) = selector_error(NAME_SELECTOR@) {
        Some(selector_failure(ErrorKind::HtmlParse, "Failed to parse name selector: "@, e))
    } else if let Some(e) = selector_error(DESCRIPTION_SELECTOR@) {
        Some(
            selector_failure(ErrorKind::HtmlParse, "Failed to parse description selector: "@, e),
        )
    } else if let Some(e) = selector_error(STARS_SELECTOR@) {
        Some(selector_failure(ErrorKind::HtmlParse, "Failed to parse stars selector: "@, e))
    } else {
        None
    }
}

/// The section of a repository in the document. A repository without a
/// description says so.
pub open spec fn repository_markdown(repository: RepositoryView) -> Seq<char> {
    "\n# "@ + repository.name + "\n\n**Stars**: "@ + repository.stars
        + "\n\n[View Repository]("@ + repository.link + ")\n\n"@ + match repository.description {
        Some(d) => d,
        None => "No description provided."@,
    } + "\n"@
}

/// Every repository has a section that is not empty.
pub proof fn lemma_repository_section_is_not_empty(repository: RepositoryView)
    ensures
        repository_markdown(repository).len() > 0,
{
    reveal_strlit("\n# ");
}

/// The sections of the repositories, in order.
pub open spec fn repository_sections(repositories: Seq<RepositoryView>) -> Seq<Seq<char>> {
    Seq::new(repositories.len(), |i: int| repository_markdown(repositories[i]))
}

/// The repositories of a page, given for each of its entries where its name
/// link points to, and the text nodes of its description and of its star
/// count. An entry without a name link is left out; a repository without a
/// star count has `0` stars.
pub fn repositories_from(
    hrefs: &Vec<Option<String>>,
    descriptions: &Vec<Option<Vec<String>>>,
    stars: &Vec<Option<Vec<String>>>,
) -> (r: Vec<Repository>)
    ensures
        r.deep_view() == repositories_of(
            hrefs.deep_view(),
            descriptions.deep_view(),
            stars.deep_view(),
            hrefs@.len(),
        ),
{
    let ghost h = hrefs.deep_view();
    let ghost d = descriptions.deep_view();
    let ghost s = stars.deep_view();
    let mut r: Vec<Repository> = Vec::new();
    let mut i: usize = 0;
    while i < hrefs.len()
        invariant
            i <= hrefs.len(),
            h == hrefs.deep_view(),
            d == descriptions.deep_view(),
            s == stars.deep_view(),
            r.deep_view() == repositories_of(h, d, s, i as nat),
        decreases hrefs.len() - i,
    {
        match &hrefs[i] {
            Some(href) => {
                let name = without_leading(href.as_str(), '/');
                let description = if i < descriptions.len() {
                    match &descriptions[i] {
                        Some(nodes) => Some(text_of(nodes)),
                        None => None,
                    }
                } else {
                    None
                };
                let count = if i < stars.len() {
                    match &stars[i] {
                        Some(nodes) => without_char(text_of(nodes).as_str(), ','),
                        None => String::from_str("0"),
                    }
                } else {
                    String::from_str("0")
                };
                let mut link = String::from_str("https://github.com/");
                link.append(name.as_str());
                let repository = Repository { name, description, link, stars: count };
                r.push(repository);
            },
            None => {},
        }
        i += 1;
    }
    r
}

/// The repositories that the page `html` lists, or the error of the first
/// selector that cannot be built.
pub fn parse_trending(html: &str) -> (r: CrawlerResult<Vec<Repository>>)
    ensures
        structure_error() matches Some(e) ==> (r matches Err(x) && x@ == e),
        structure_error() is None ==> (r matches Ok(v) && v.deep_view() == page_repositories(
            html@,
        )),
{
    match require_selector(ARTICLE_SELECTOR, false, "Failed to parse article selector: ") {
        Err(e) => {
            return Err(e);
        },
        Ok(_) => {},
    }
    match require_selector(NAME_SELECTOR, false, "Failed to parse name selector: ") {
        Err(e) => {
            return Err(e);
        },
        Ok(_) => {},
    }
    match require_selector(DESCRIPTION_SELECTOR, false, "Failed to parse description selector: ") {
        Err(e) => {
            return Err(e);
        },
        Ok(_) => {},
    }
    match require_selector(STARS_SELECTOR, false, "Failed to parse stars selector: ") {
        Err(e) => {
            return Err(e);
        },
        Ok(_) => {},
    }
    let hrefs = attrs_by_row(html, ARTICLE_SELECTOR, NAME_SELECTOR, "href");
    let descriptions = text_nodes_by_row(html, ARTICLE_SELECTOR, DESCRIPTION_SELECTOR);
    let stars = text_nodes_by_row(html, ARTICLE_SELECTOR, STARS_SELECTOR);
    Ok(repositories_from(&hrefs, &descriptions, &stars))
}

/// The sections that the pages contribute, in the order of the pages and,
/// within a page, of its entries. A page that could not be fetched
/// contributes nothing.
pub open spec fn page_sections(pages: Seq<Option<String>>) -> Seq<Seq<char>>
    decreases pages.len(),
{
    if pages.len() == 0 {
        Seq::empty()
    } else {
        page_sections(pages.drop_last()) + match pages.last() {
            Some(html) => repository_sections(page_repositories(html@)),
            None => Seq::empty(),
        }
    }
}

/// Whether some page was fetched.
pub open spec fn any_fetched(pages: Seq<Option<String>>) -> bool {
    exists|i: int| 0 <= i < pages.len() && (#[trigger] pages[i]) is Some
}

/// The day's file of trending repositories: the sections with a rule
/// between them, or nothing where there is no section.
pub open spec fn trending_upload(pages: Seq<Option<String>>, date: Date) -> Option<UploadView> {
    let sections = page_sections(pages);
    if sections.len() > 0 {
        Some(markdown_upload(date, Source::GithubTrending, join(sections, "\n---\n"@)))
    } else {
        None
    }
}

/// What the pages come to on the day `date`: the error of a selector that
/// cannot be built, as soon as there is a page to read, and else the day's
/// file.
pub open spec fn trending_outcome(pages: Seq<Option<String>>, date: Date) -> Result<
    Option<UploadView>,
    (ErrorKind, Seq<char>),
> {
    if any_fetched(pages) && structure_error() is Some {
        Err(structure_error()->0)
    } else {
        Ok(trending_upload(pages, date))
    }
}

/// A copy of the strings.
fn copy_strings(v: &Vec<String>) -> (r: Vec<String>)
    ensures
        r.deep_view() == v.deep_view(),
{
    let mut r: Vec<String> = Vec::new();
    let mut i: usize = 0;
    while i < v.len()
        invariant
            i <= v.len(),
            r@.len() == i,
            forall|k: int| 0 <= k < i ==> (#[trigger] r@[k])@ == v@[k]@,
        decreases v.len() - i,
    {
        r.push(v[i].clone());
        i += 1;
    }
    r
}

/// The crawler of the trending pages.
pub struct GithubTrendingFetcher {
    pub supabase_client: SupabaseStorageClient,
    pub languages: Vec<String>,
}

impl GithubTrendingFetcher {
    /// The crawler that `config` describes. It needs at least one language.
    pub fn new(config: &Config) -> (r: CrawlerResult<Self>)
        ensures
            config.languages@.len() > 0 ==> (r matches Ok(fetcher) && {
                &&& fetcher.languages.deep_view() == config.languages.deep_view()
                &&& fetcher.supabase_client.base_url() == trim_end_matches(
                    config.supabase.storage_url@,
                    '/',
                )
                &&& fetcher.supabase_client.api_key() == config.supabase.key@
                &&& fetcher.supabase_client.bucket_name() == config.supabase.bucket@
            }),
            config.languages@.len() == 0 ==> (r matches Err(e) && e@ == crate::config::missing(
                "LANGUAGES environment variable must be set and non-empty"@,
            )),
    {
        let supabase_client = SupabaseStorageClient::new(
            config.supabase.storage_url.as_str(),
            config.supabase.key.as_str(),
            config.supabase.bucket.as_str(),
        );
        let languages = match config.require_languages() {
            Ok(languages) => copy_strings(languages),
            Err(e) => {
                return Err(e);
            },
        };
        Ok(GithubTrendingFetcher { supabase_client, languages })
    }

    /// The name of the crawler.
    pub fn name(&self) -> (n: &'static str)
        ensures
            n@ == Source::GithubTrending.name_spec(),
    {
        Source::GithubTrending.name()
    }

    /// The address of the trending page of `language`.
    pub fn trending_url(&self, language: &str) -> (url: String)
        ensures
            url@ == trending_url(language@),
    {
        if language.is_empty() {
            String::from_str("https://github.com/trending?since=daily")
        } else {
            let mut url = String::from_str("https://github.com/trending/");
            url.append(language);
            url.append("?since=daily");
            url
        }
    }

    /// The section of `repository` in the document.
    pub fn stylize_repository_info(&self, repository: &Repository) -> (r: String)
        ensures
            r@ == repository_markdown(repository@),
    {
        let mut r = String::from_str("\n# ");
        r.append(repository.name.as_str());
        r.append("\n\n**Stars**: ");
        r.append(repository.stars.as_str());
        r.append("\n\n[View Repository](");
        r.append(repository.link.as_str());
        r.append(")\n\n");
        match &repository.description {
            Some(d) => r.append(d.as_str()),
            None => r.append("No description provided."),
        }
        r.append("\n");
        r
    }

    /// Appends the sections of `repositories` to `sections`.
    fn push_sections(&self, sections: &mut Vec<String>, repositories: &Vec<Repository>)
        ensures
            final(sections).deep_view() == old(sections).deep_view() + repository_sections(
                repositories.deep_view(),
            ),
    {
        let ghost all = repository_sections(repositories.deep_view());
        let mut j: usize = 0;
        while j < repositories.len()
            invariant
                j <= repositories.len(),
                all == repository_sections(repositories.deep_view()),
                sections.deep_view() == old(sections).deep_view() + all.take(j as int),
            decreases repositories.len() - j,
        {
            let section = self.stylize_repository_info(&repositories[j]);
            let ghost before = sections.deep_view();
            sections.push(section);
            assert(before.push(section@) =~= old(sections).deep_view() + all.take(j + 1));
            j += 1;
        }
    }

    /// The day's file of trending repositories for `date`, given what the
    /// fetch of each language's page came to. A page that could not be
    /// fetched is passed over; with no repository on any page there is no
    /// file. A selector that cannot be built fails the crawl as soon as a
    /// page is read.
    pub fn process_on(&self, pages: &Vec<Option<String>>, date: &Date) -> (r: CrawlerResult<
        Option<Upload>,
    >)
        ensures
            outcome_view(r) == trending_outcome(pages@, *date),
    {
        let mut sections: Vec<String> = Vec::new();
        let mut i: usize = 0;
        while i < pages.len()
            invariant
                i <= pages.len(),
                sections.deep_view() == page_sections(pages@.take(i as int)),
                structure_error() is None || !any_fetched(pages@.take(i as int)),
            decreases pages.len() - i,
        {
            proof {
                assert(pages@.take(i + 1).drop_last() == pages@.take(i as int));
            }
            match &pages[i] {
                Some(html) => {
                    match parse_trending(html.as_str()) {
                        Ok(repositories) => {
                            self.push_sections(&mut sections, &repositories);
                        },
                        Err(e) => {
                            return Err(e);
                        },
                    }
                },
                None => {
                    assert(structure_error() is None || !any_fetched(pages@.take(i + 1)));
                },
            }
            i += 1;
        }
        assert(pages@.take(pages.len() as int) == pages@);
        if sections.len() > 0 {
            let content = join_strings(&sections, "\n---\n");
            Ok(Some(Upload::markdown(date, Source::GithubTrending, content)))
        } else {
            Ok(None)
        }
    }

    /// The file of trending repositories for the present day in UTC, as
    /// `process_on` makes it for that day.
    pub fn process(&self, pages: &Vec<Option<String>>) -> (r: CrawlerResult<Option<Upload>>)
        ensures
            exists|date: Date|
                date.in_range() && outcome_view(r) == #[trigger] trending_outcome(pages@, date),
    {
        let today = utc_today();
        self.process_on(pages, &today)
    }
}

} // verus!
