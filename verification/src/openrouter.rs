//! The ranking of models: what the ranking page lists, and how the list
//! reads as a table in the day's document.

use crate::config::Config;
use crate::date::{utc_today, Date};
use crate::error::{CrawlerResult, ErrorKind};
use crate::fields::{
    metric_at, require_selector, row_metric, row_name, selector_failure, text_at,
};
use crate::html::{row_texts, selector_error, text_nodes_by_row};
use crate::number::{decimal, push_decimal};
use crate::source::Source;
use crate::storage::{
    markdown_upload, outcome_view, SupabaseStorageClient, Upload, UploadView,
};
use crate::text::{string_of, trim_end_matches};
use vstd::prelude::*;
use vstd::string::StringExecFns;

verus! {

/// The address of the ranking page.
pub const RANKINGS_URL: &'static str = "https://openrouter.ai/rankings";

/// The selector of the rows of the ranking.
pub const ROW_SELECTOR: &'static str = "tr, .ranking-row, .model-row";

/// The selector, within a row, of the model's name.
pub const NAME_SELECTOR: &'static str = ".model-name, .name, h3, h4";

/// The selector, within a row, of the model's score.
pub const SCORE_SELECTOR: &'static str = ".score, .rating, .points";

/// A model of the ranking.
#[derive(Debug)]
pub struct ModelRanking {
    pub rank: usize,
    pub name: String,
    pub score: u32,
}

/// A `ModelRanking` as contracts see it.
pub struct ModelRankingView {
    pub rank: nat,
    pub name: Seq<char>,
    pub score: nat,
}

impl View for ModelRanking {
    type V = ModelRankingView;

    open spec fn view(&self) -> ModelRankingView {
        ModelRankingView { rank: self.rank as nat, name: self.name@, score: self.score as nat }
    }
}

impl DeepView for ModelRanking {
    type V = ModelRankingView;

    open spec fn deep_view(&self) -> ModelRankingView {
        self@
    }
}

impl ModelRanking {
    /// The model with the given rank, name and score.
    pub fn new(rank: usize, name: String, score: u32) -> (model: Self)
        ensures
            model.rank == rank,
            model.name == name,
            model.score == score,
    {
        ModelRanking { rank, name, score }
    }
}

/// The models of the first `n` rows of a ranking, given for each row the
/// text nodes of its name and of its score. A row without a name gives no
/// model and takes no rank: the models are ranked 1, 2, 3 and so on in the
/// order of their rows.
pub open spec fn models_of(
    names: Seq<Option<Seq<Seq<char>>>>,
    scores: Seq<Option<Seq<Seq<char>>>>,
    n: nat,
) -> Seq<ModelRankingView>
    decreases n,
{
    if n == 0 {
        Seq::empty()
    } else {
        let before = models_of(names, scores, (n - 1) as nat);
        match row_name(names, n - 1) {
            Some(name) => before.push(
                ModelRankingView {
                    rank: before.len() + 1,
                    name,
                    score: row_metric(scores, n - 1),
                },
            ),
            None => before,
        }
    }
}

/// The models that the page `html` lists.
pub open spec fn page_models(html: Seq<char>) -> Seq<ModelRankingView> {
    let names = row_texts(html, ROW_SELECTOR@, NAME_SELECTOR@);
    models_of(names, row_texts(html, ROW_SELECTOR@, SCORE_SELECTOR@), names.len())
}

/// The error of the first selector of the ranking page that cannot be
/// built, if there is one.
pub open spec fn structure_error() -> Option<(ErrorKind, Seq<char>)> {
    if let Some(e) = selector_error(ROW_SELECTOR@) {
        Some(selector_failure(ErrorKind::Parse, "Invalid selector: "@, e))
    } else if let Some(e) = selector_error(NAME_SELECTOR@) {
        Some(selector_failure(ErrorKind::Parse, "Invalid name selector: "@, e))
    } else if let Some(e) = selector_error(SCORE_SELECTOR@) {
        Some(selector_failure(ErrorKind::Parse, "Invalid score selector: "@, e))
    } else {
        None
    }
}

/// The row of a model in the table.
pub open spec fn model_row(model: ModelRankingView) -> Seq<char> {
    "| "@ + decimal(model.rank) + " | "@ + model.name + " | "@ + decimal(model.score) + " |\n"@
}

/// Every model has a row that is not empty.
pub proof fn lemma_model_row_is_not_empty(model: ModelRankingView)
    ensures
        model_row(model).len() > 0,
{
    reveal_strlit("| ");
}

/// The rows of the first `n` models, one after the other.
pub open spec fn model_rows(models: Seq<ModelRankingView>, n: nat) -> Seq<char>
    decreases n,
{
    if n == 0 {
        Seq::empty()
    } else {
        model_rows(models, (n - 1) as nat) + model_row(models[n - 1])
    }
}

/// The document of the ranking fetched on `date`: a title, the date, and
/// the table of the models.
pub open spec fn rankings_markdown(models: Seq<ModelRankingView>, date: Date) -> Seq<char> {
    "# OpenRouter Model Rankings\n\n"@ + "*Fetched on "@ + date.iso_spec() + "*\n\n"@
        + "| Rank | Model Name | Score |\n"@ + "|------|------------|-------|\n"@ + model_rows(
        models,
        models.len(),
    )
}

/// The day's file of the ranking, or nothing where no model is listed.
pub open spec fn models_upload(models: Seq<ModelRankingView>, date: Date) -> Option<UploadView> {
    if models.len() > 0 {
        Some(markdown_upload(date, Source::OpenRouter, rankings_markdown(models, date)))
    } else {
        None
    }
}

/// What the page `html` comes to on the day `date`: the error of a selector
/// that cannot be built, and else the day's file.
pub open spec fn rankings_outcome(html: Seq<char>, date: Date) -> Result<
    Option<UploadView>,
    (ErrorKind, Seq<char>),
> {
    match structure_error() {
        Some(e) => Err(e),
        None => Ok(models_upload(page_models(html), date)),
    }
}

/// The models of a ranking, given for each of its rows the text nodes of
/// its name and of its score. A row without a name is left out and takes no
/// rank, so that the models are ranked 1, 2, 3 and so on in the order of
/// their rows.
pub fn models_from(names: &Vec<Option<Vec<String>>>, scores: &Vec<Option<Vec<String>>>) -> (r:
    Vec<ModelRanking>)
    ensures
        r.deep_view() == models_of(names.deep_view(), scores.deep_view(), names@.len()),
        forall|k: int| 0 <= k < r@.len() ==> (#[trigger] r@[k]).rank == k + 1,
{
    let ghost nm = names.deep_view();
    let ghost sc = scores.deep_view();
    let mut r: Vec<ModelRanking> = Vec::new();
    let mut i: usize = 0;
    while i < names.len()
        invariant
            i <= names.len(),
            nm == names.deep_view(),
            sc == scores.deep_view(),
            r@.len() <= i,
            r.deep_view() == models_of(nm, sc, i as nat),
            forall|k: int| 0 <= k < r@.len() ==> (#[trigger] r@[k]).rank == k + 1,
        decreases names.len() - i,
    {
        match text_at(names, i) {
            Some(name) => {
                if !name.as_str().is_empty() {
                    let score = metric_at(scores, i);
                    let model = ModelRanking::new(r.len() + 1, name, score);
                    r.push(model);
                }
            },
            None => {},
        }
        i += 1;
    }
    r
}

/// The crawler of the model ranking.
pub struct OpenRouterCrawler {
    pub storage_client: SupabaseStorageClient,
}

impl OpenRouterCrawler {
    /// The crawler that `config` describes.
    pub fn new(config: &Config) -> (r: CrawlerResult<Self>)
        ensures
            r matches Ok(crawler) && {
                &&& crawler.storage_client.base_url() == trim_end_matches(
                    config.supabase.storage_url@,
                    '/',
                )
                &&& crawler.storage_client.api_key() == config.supabase.key@
                &&& crawler.storage_client.bucket_name() == config.supabase.bucket@
            },
    {
        Ok(
            OpenRouterCrawler {
                storage_client: SupabaseStorageClient::new(
                    config.supabase.storage_url.as_str(),
                    config.supabase.key.as_str(),
                    config.supabase.bucket.as_str(),
                ),
            },
        )
    }

    /// The name of the crawler.
    pub fn name(&self) -> (n: &'static str)
        ensures
            n@ == Source::OpenRouter.name_spec(),
    {
        Source::OpenRouter.name()
    }

    /// The models that the page `html` lists, or the error of the first
    /// selector that cannot be built.
    pub fn parse_rankings(&self, html: &str) -> (r: CrawlerResult<Vec<ModelRanking>>)
        ensures
            structure_error() matches Some(e) ==> (r matches Err(x) && x@ == e),
            structure_error() is None ==> (r matches Ok(v) && v.deep_view() == page_models(html@)
                && forall|k: int| 0 <= k < v@.len() ==> (#[trigger] v@[k]).rank == k + 1),
    {
        match require_selector(ROW_SELECTOR, true, "Invalid selector: ") {
            Err(e) => {
                return Err(e);
            },
            Ok(_) => {},
        }
        match require_selector(NAME_SELECTOR, true, "Invalid name selector: ") {
            Err(e) => {
                return Err(e);
            },
            Ok(_) => {},
        }
        match require_selector(SCORE_SELECTOR, true, "Invalid score selector: ") {
            Err(e) => {
                return Err(e);
            },
            Ok(_) => {},
        }
        let names = text_nodes_by_row(html, ROW_SELECTOR, NAME_SELECTOR);
        let scores = text_nodes_by_row(html, ROW_SELECTOR, SCORE_SELECTOR);
        Ok(models_from(&names, &scores))
    }

    /// The document of the ranking fetched on `date`.
    pub fn format_rankings_markdown(&self, rankings: &Vec<ModelRanking>, date: &Date) -> (r:
        String)
        ensures
            r@ == rankings_markdown(rankings.deep_view(), *date),
    {
        let ghost all = rankings.deep_view();
        let mut content = String::new();
        content.append("# OpenRouter Model Rankings\n\n");
        content.append("*Fetched on ");
        content.append(string_of(&date.iso_chars()).as_str());
        content.append("*\n\n");
        content.append("| Rank | Model Name | Score |\n");
        content.append("|------|------------|-------|\n");
        let ghost head = content@;
        let mut i: usize = 0;
        while i < rankings.len()
            invariant
                i <= rankings.len(),
                all == rankings.deep_view(),
                content@ == head + model_rows(all, i as nat),
            decreases rankings.len() - i,
        {
            let model = &rankings[i];
            let mut rank: Vec<char> = Vec::new();
            push_decimal(&mut rank, model.rank as u64);
            let mut score: Vec<char> = Vec::new();
            push_decimal(&mut score, model.score as u64);
            content.append("| ");
            content.append(string_of(&rank).as_str());
            content.append(" | ");
            content.append(model.name.as_str());
            content.append(" | ");
            content.append(string_of(&score).as_str());
            content.append(" |\n");
            i += 1;
        }
        content
    }

    /// The day's file of the ranking for `date`, given the models that the
    /// page lists: nothing where it lists none.
    pub fn rankings_upload(&self, rankings: &Vec<ModelRanking>, date: &Date) -> (r: Option<
        Upload,
    >)
        ensures
            r.deep_view() == models_upload(rankings.deep_view(), *date),
    {
        if rankings.len() == 0 {
            return None;
        }
        let content = self.format_rankings_markdown(rankings, date);
        Some(Upload::markdown(date, Source::OpenRouter, content))
    }

    /// What the ranking page `html` comes to on the day `date`: the error of
    /// a selector that cannot be built, and else the day's file, which there
    /// is none of where the page lists no model.
    pub fn process_rankings_on(&self, html: &str, date: &Date) -> (r: CrawlerResult<
        Option<Upload>,
    >)
        ensures
            outcome_view(r) == rankings_outcome(html@, *date),
    {
        let rankings = match self.parse_rankings(html) {
            Ok(rankings) => rankings,
            Err(e) => {
                return Err(e);
            },
        };
        Ok(self.rankings_upload(&rankings, date))
    }

    /// What the ranking page `html` comes to on the present day in UTC, as
    /// `process_rankings_on` states it for that day.
    pub fn process_rankings(&self, html: &str) -> (r: CrawlerResult<Option<Upload>>)
        ensures
            exists|date: Date|
                date.in_range() && outcome_view(r) == #[trigger] rankings_outcome(html@, date),
    {
        let today = utc_today();
        self.process_rankings_on(html, &today)
    }
}

} // verus!
