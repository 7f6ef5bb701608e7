//! The news digest: what is asked of the digest service, and what its
//! answer comes to.

use crate::date::{utc_today, Date};
use crate::error::{CrawlerError, ErrorKind};
use crate::source::Source;
use crate::storage::{markdown_upload, SupabaseStorageClient, Upload, UploadView};
use crate::text::trim_end_matches;
use vstd::prelude::*;
use vstd::string::StringExecFns;

verus! {

/// The address of the digest service.
pub const COMPLETIONS_URL: &'static str = "https://api.x.ai/v1/chat/completions";

/// What the service is asked.
pub const DIGEST_PROMPT: &'static str = "Provide me a digest of world news in the last 24 hours.";

/// The model that is asked.
pub const DIGEST_MODEL: &'static str = "grok-3-latest";

/// How the model may search.
pub const SEARCH_MODE: &'static str = "auto";

/// The digest that an answer holds: the text of its first choice, and the
/// empty text where it has no choice.
pub open spec fn digest_of(choices: Seq<Seq<char>>) -> Seq<char> {
    if choices.len() > 0 {
        choices[0]
    } else {
        Seq::empty()
    }
}

/// The day's file of the digest, or nothing where the digest is empty.
pub open spec fn digest_upload(digest: Seq<char>, date: Date) -> Option<UploadView> {
    if digest.len() > 0 {
        Some(markdown_upload(date, Source::XaiSearch, digest))
    } else {
        None
    }
}

/// The cause of a request that the service answered with a failure status.
pub open spec fn request_failure(status: Seq<char>, answer: Seq<char>) -> Seq<char> {
    "Request failed: "@ + status + " - "@ + answer
}

/// The account at the digest service and at the storage.
pub struct XaiClient {
    api_key: String,
    supabase_client: SupabaseStorageClient,
}

impl XaiClient {
    /// The key of the digest service.
    pub closed spec fn api_key(&self) -> Seq<char> {
        self.api_key@
    }

    /// The account of the storage.
    pub closed spec fn storage(&self) -> SupabaseStorageClient {
        self.supabase_client
    }

    /// The account with the key `api_key`, storing in the bucket
    /// `supabase_bucket` at `supabase_url`.
    pub fn new(
        api_key: &str,
        supabase_url: &str,
        supabase_key: &str,
        supabase_bucket: &str,
    ) -> (client: Self)
        ensures
            client.api_key() == api_key@,
            client.storage().base_url() == trim_end_matches(supabase_url@, '/'),
            client.storage().api_key() == supabase_key@,
            client.storage().bucket_name() == supabase_bucket@,
    {
        XaiClient {
            api_key: String::from_str(api_key),
            supabase_client: SupabaseStorageClient::new(
                supabase_url,
                supabase_key,
                supabase_bucket,
            ),
        }
    }

    /// The name of the crawler.
    pub fn name(&self) -> (n: &'static str)
        ensures
            n@ == Source::XaiSearch.name_spec(),
    {
        Source::XaiSearch.name()
    }

    /// The account of the storage.
    pub fn supabase_client(&self) -> (c: &SupabaseStorageClient)
        ensures
            *c == self.storage(),
    {
        &self.supabase_client
    }

    /// The value of the header that signs a request to the service.
    pub fn authorization(&self) -> (r: String)
        ensures
            r@ == "Bearer "@ + self.api_key(),
    {
        let mut r = String::from_str("Bearer ");
        r.append(self.api_key.as_str());
        r
    }

    /// The failure of a request that the service answered with the status
    /// `status` and the text `answer`.
    pub fn failed_request(&self, status: &str, answer: &str) -> (e: CrawlerError)
        ensures
            e@ == (ErrorKind::Api, request_failure(status@, answer@)),
    {
        let mut text = String::from_str("Request failed: ");
        text.append(status);
        text.append(" - ");
        text.append(answer);
        CrawlerError::Api(text)
    }

    /// The digest that an answer with the given choices holds.
    pub fn fetch_news_digest(&self, choices: &Vec<String>) -> (digest: String)
        ensures
            digest@ == digest_of(choices.deep_view()),
    {
        if choices.len() > 0 {
            choices[0].clone()
        } else {
            String::new()
        }
    }

    /// The day's file of the digest for `date`. An empty digest gives no
    /// file, which is no failure.
    pub fn run_on(&self, digest: String, date: &Date) -> (r: Option<Upload>)
        ensures
            r.deep_view() == digest_upload(digest@, *date),
    {
        if digest.as_str().is_empty() {
            return None;
        }
        Some(Upload::markdown(date, Source::XaiSearch, digest))
    }

    /// The file of the digest for the present day in UTC, as `run_on` makes
    /// it for that day.
    pub fn run(&self, digest: String) -> (r: Option<Upload>)
        ensures
            exists|date: Date|
                date.in_range() && r.deep_view() == #[trigger] digest_upload(digest@, date),
    {
        let today = utc_today();
        self.run_on(digest, &today)
    }
}

} // verus!
