//! What is handed to the object storage: one Markdown file per source and
//! day, and the request that stores it.
//!
//! The storage itself is outside this crate. It is asked to overwrite: each
//! request carries the header `x-upsert: true`, and the address of a file is
//! fixed by the configured bucket and the file's path alone.

use crate::date::Date;
use crate::error::{CrawlerError, CrawlerResult, ErrorKind};
use crate::source::{lemma_slugs_differ, Source};
use crate::text::{
    string_of, trim_end_matches, trim_start_matches, without_leading, without_trailing,
};
use vstd::prelude::*;
use vstd::string::StringExecFns;

verus! {

/// The path of the file of `source` for the day `date`.
pub open spec fn daily_path(date: Date, source: Source) -> Seq<char> {
    date.iso_spec() + "/"@ + source.slug_spec() + ".md"@
}

/// On one day, no two sources share a path: there is one file per source
/// and day.
pub proof fn lemma_one_file_per_source(date: Date, a: Source, b: Source)
    requires
        a != b,
    ensures
        daily_path(date, a) != daily_path(date, b),
{
    lemma_slugs_differ(a, b);
    let head = date.iso_spec() + "/"@;
    let pa = daily_path(date, a);
    let pb = daily_path(date, b);
    if pa == pb {
        assert(pa.len() == head.len() + a.slug_spec().len() + ".md"@.len());
        assert(pb.len() == head.len() + b.slug_spec().len() + ".md"@.len());
        assert forall|k: int| 0 <= k < a.slug_spec().len() implies a.slug_spec()[k]
            == b.slug_spec()[k] by {
            assert(pa[head.len() + k] == a.slug_spec()[k]);
            assert(pb[head.len() + k] == b.slug_spec()[k]);
        }
        assert(a.slug_spec() =~= b.slug_spec());
    }
}

/// A file to store.
pub struct Upload {
    pub path: String,
    pub content: String,
    pub content_type: String,
}

/// An `Upload` as contracts see it.
pub struct UploadView {
    pub path: Seq<char>,
    pub content: Seq<char>,
    pub content_type: Seq<char>,
}

impl View for Upload {
    type V = UploadView;

    open spec fn view(&self) -> UploadView {
        UploadView { path: self.path@, content: self.content@, content_type: self.content_type@ }
    }
}

impl DeepView for Upload {
    type V = UploadView;

    open spec fn deep_view(&self) -> UploadView {
        self@
    }
}

/// The Markdown file of `source` for the day `date`.
pub open spec fn markdown_upload(date: Date, source: Source, content: Seq<char>) -> UploadView {
    UploadView { path: daily_path(date, source), content, content_type: "text/markdown"@ }
}

impl Upload {
    /// The Markdown file of `source` for the day `date`, with the given
    /// content.
    pub fn markdown(date: &Date, source: Source, content: String) -> (u: Upload)
        ensures
            u@ == markdown_upload(*date, source, content@),
    {
        let mut path = string_of(&date.iso_chars());
        path.append("/");
        path.append(source.slug());
        path.append(".md");
        Upload { path, content, content_type: String::from_str("text/markdown") }
    }
}

/// An outcome as contracts see it.
pub open spec fn outcome_view(r: CrawlerResult<Option<Upload>>) -> Result<
    Option<UploadView>,
    (ErrorKind, Seq<char>),
> {
    match r {
        Ok(u) => Ok(u.deep_view()),
        Err(e) => Err(e@),
    }
}

/// A request to the storage: where it goes, its headers in order, and its
/// body.
pub struct UploadRequest {
    pub url: String,
    pub headers: Vec<(String, String)>,
    pub body: String,
}

/// The address of the object `path` in the bucket `bucket` of the storage
/// at `base_url`. A slash at the front of the path does not count.
pub open spec fn object_url(base_url: Seq<char>, bucket: Seq<char>, path: Seq<char>) -> Seq<char> {
    base_url + "/object/"@ + bucket + "/"@ + trim_start_matches(path, '/')
}

/// The headers of an upload with the key `api_key` and the given content
/// type, in the order in which they are sent.
pub open spec fn upload_headers(api_key: Seq<char>, content_type: Seq<char>) -> Seq<
    (Seq<char>, Seq<char>),
> {
    seq![
        ("apikey"@, api_key),
        ("Authorization"@, "Bearer "@ + api_key),
        ("Content-Type"@, content_type),
        ("x-upsert"@, "true"@),
    ]
}

/// The headers of a request as contracts see them.
pub open spec fn headers_view(headers: Seq<(String, String)>) -> Seq<(Seq<char>, Seq<char>)> {
    Seq::new(headers.len(), |i: int| (headers[i].0@, headers[i].1@))
}

/// The account of a storage bucket.
pub struct SupabaseStorageClient {
    base_url: String,
    api_key: String,
    bucket_name: String,
}

impl SupabaseStorageClient {
    /// The address of the storage, without slashes at its end.
    pub closed spec fn base_url(&self) -> Seq<char> {
        self.base_url@
    }

    /// The key that requests are signed with.
    pub closed spec fn api_key(&self) -> Seq<char> {
        self.api_key@
    }

    /// The name of the bucket.
    pub closed spec fn bucket_name(&self) -> Seq<char> {
        self.bucket_name@
    }

    /// The account of the bucket `bucket_name` at `base_url`. Slashes at the
    /// end of the address are dropped.
    pub fn new(base_url: &str, api_key: &str, bucket_name: &str) -> (client: Self)
        ensures
            client.base_url() == trim_end_matches(base_url@, '/'),
            client.api_key() == api_key@,
            client.bucket_name() == bucket_name@,
    {
        SupabaseStorageClient {
            base_url: without_trailing(base_url, '/'),
            api_key: String::from_str(api_key),
            bucket_name: String::from_str(bucket_name),
        }
    }

    /// The address of the object `path` in this bucket.
    pub fn object_url(&self, path: &str) -> (url: String)
        ensures
            url@ == object_url(self.base_url(), self.bucket_name(), path@),
    {
        let mut url = self.base_url.clone();
        url.append("/object/");
        url.append(self.bucket_name.as_str());
        url.append("/");
        url.append(without_leading(path, '/').as_str());
        url
    }

    /// The request that stores `content` under `path`, overwriting what is
    /// there.
    pub fn upload_file(&self, path: &str, content: String, content_type: &str) -> (request:
        UploadRequest)
        ensures
            request.url@ == object_url(self.base_url(), self.bucket_name(), path@),
            headers_view(request.headers@) == upload_headers(self.api_key(), content_type@),
            request.body@ == content@,
    {
        let url = self.object_url(path);
        let mut bearer = String::from_str("Bearer ");
        bearer.append(self.api_key.as_str());
        let mut headers: Vec<(String, String)> = Vec::new();
        headers.push((String::from_str("apikey"), self.api_key.clone()));
        headers.push((String::from_str("Authorization"), bearer));
        headers.push((String::from_str("Content-Type"), String::from_str(content_type)));
        headers.push((String::from_str("x-upsert"), String::from_str("true")));
        UploadRequest { url, headers, body: content }
    }

    /// What an upload comes to, given whether the storage answered the
    /// request to `url` with success, and the text of its answer.
    pub fn upload_outcome(url: &str, success: bool, answer: &str) -> (r: CrawlerResult<()>)
        ensures
            success ==> r is Ok,
            !success ==> (r matches Err(e) && e@ == (
                ErrorKind::StorageUpload,
                "Failed to upload to Supabase Storage ("@ + url@ + "): "@ + answer@,
            )),
    {
        if success {
            Ok(())
        } else {
            let mut text = String::from_str("Failed to upload to Supabase Storage (");
            text.append(url);
            text.append("): ");
            text.append(answer);
            Err(CrawlerError::StorageUpload(text))
        }
    }
}

} // verus!
