//! What can go wrong in a crawl.

use vstd::prelude::*;
use vstd::string::StringExecFns;

verus! {

/// The ways in which a crawl fails.
#[derive(Clone, Copy, Debug, PartialEq, Eq, Structural)]
pub enum ErrorKind {
    /// A request could not be sent or was answered with a failure status.
    HttpRequest,
    /// A selector for a page could not be built.
    HtmlParse,
    /// The storage refused an upload.
    StorageUpload,
    /// A value that a crawler needs is not configured.
    Config,
    /// A variable of the environment is missing.
    EnvVar,
    /// A service answered with a failure, or some crawlers of a run failed.
    Api,
    /// A selector for a ranking could not be built.
    Parse,
    /// Reading or writing failed.
    Io,
}

/// A failure of a crawl: its kind, and what is known of the cause.
#[derive(Debug)]
pub enum CrawlerError {
    HttpRequest(String),
    HtmlParse(String),
    StorageUpload(String),
    Config(String),
    EnvVar(String),
    Api(String),
    Parse(String),
    Io(String),
}

/// The result of a step of a crawl.
pub type CrawlerResult<T> = Result<T, CrawlerError>;

/// The words with which the message of an error of kind `kind` begins.
pub open spec fn heading(kind: ErrorKind) -> Seq<char> {
    match kind {
        ErrorKind::HttpRequest => "HTTP request failed: "@,
        ErrorKind::HtmlParse => "HTML parsing failed: "@,
        ErrorKind::StorageUpload => "Storage upload failed: "@,
        ErrorKind::Config => "Configuration error: "@,
        ErrorKind::EnvVar => "Environment variable error: "@,
        ErrorKind::Api => "API error: "@,
        ErrorKind::Parse => "Parsing error: "@,
        ErrorKind::Io => "IO error: "@,
    }
}

impl View for CrawlerError {
    type V = (ErrorKind, Seq<char>);

    /// The kind of the error and the text of its cause.
    open spec fn view(&self) -> (ErrorKind, Seq<char>) {
        match self {
            CrawlerError::HttpRequest(s) => (ErrorKind::HttpRequest, s@),
            CrawlerError::HtmlParse(s) => (ErrorKind::HtmlParse, s@),
            CrawlerError::StorageUpload(s) => (ErrorKind::StorageUpload, s@),
            CrawlerError::Config(s) => (ErrorKind::Config, s@),
            CrawlerError::EnvVar(s) => (ErrorKind::EnvVar, s@),
            CrawlerError::Api(s) => (ErrorKind::Api, s@),
            CrawlerError::Parse(s) => (ErrorKind::Parse, s@),
            CrawlerError::Io(s) => (ErrorKind::Io, s@),
        }
    }
}

impl CrawlerError {
    /// The kind of the error.
    pub fn kind(&self) -> (k: ErrorKind)
        ensures
            k == self@.0,
    {
        match self {
            CrawlerError::HttpRequest(_) => ErrorKind::HttpRequest,
            CrawlerError::HtmlParse(_) => ErrorKind::HtmlParse,
            CrawlerError::StorageUpload(_) => ErrorKind::StorageUpload,
            CrawlerError::Config(_) => ErrorKind::Config,
            CrawlerError::EnvVar(_) => ErrorKind::EnvVar,
            CrawlerError::Api(_) => ErrorKind::Api,
            CrawlerError::Parse(_) => ErrorKind::Parse,
            CrawlerError::Io(_) => ErrorKind::Io,
        }
    }

    /// The text of the cause.
    pub fn detail(&self) -> (d: &String)
        ensures
            d@ == self@.1,
    {
        match self {
            CrawlerError::HttpRequest(s) => s,
            CrawlerError::HtmlParse(s) => s,
            CrawlerError::StorageUpload(s) => s,
            CrawlerError::Config(s) => s,
            CrawlerError::EnvVar(s) => s,
            CrawlerError::Api(s) => s,
            CrawlerError::Parse(s) => s,
            CrawlerError::Io(s) => s,
        }
    }

    /// The message of the error: the heading of its kind, then the cause.
    pub fn message(&self) -> (m: String)
        ensures
            m@ == heading(self@.0) + self@.1,
    {
        let mut m = match self {
            CrawlerError::HttpRequest(_) => String::from_str("HTTP request failed: "),
            CrawlerError::HtmlParse(_) => String::from_str("HTML parsing failed: "),
            CrawlerError::StorageUpload(_) => String::from_str("Storage upload failed: "),
            CrawlerError::Config(_) => String::from_str("Configuration error: "),
            CrawlerError::EnvVar(_) => String::from_str("Environment variable error: "),
            CrawlerError::Api(_) => String::from_str("API error: "),
            CrawlerError::Parse(_) => String::from_str("Parsing error: "),
            CrawlerError::Io(_) => String::from_str("IO error: "),
        };
        m.append(self.detail().as_str());
        m
    }
}

} // verus!
