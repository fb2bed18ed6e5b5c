//! The failures of the proxy and the answers that they are turned into.

use crate::config::config_error_text;
use crate::config::ConfigError;
use crate::config::ConfigErrorView;
use crate::text::prefixed;
use vstd::prelude::*;

verus! {

/// Status of an answer to a request that cannot be understood.
pub const BAD_REQUEST: u16 = 400;

/// Status of an answer to a request for a bucket that is not allowed.
pub const FORBIDDEN: u16 = 403;

/// Status of an answer to a request that failed on the proxy's side.
pub const INTERNAL_SERVER_ERROR: u16 = 500;

/// A failure of the proxy.
#[derive(Debug)]
pub enum ProxyError {
    /// The host or the path of the request cannot be used; holds the reason.
    InvalidPath(String),
    /// The virtual name is not allowed; holds the name.
    UnauthorizedBucket(String),
    /// The object store failed; holds its diagnostic.
    S3Error(String),
    /// An HTTP request of the proxy's own failed; holds the diagnostic.
    HttpError(String),
    /// The key-value store failed; holds what went wrong.
    KvError(String),
    /// The settings could not be loaded.
    ConfigError(ConfigError),
    /// Anything else; holds the reason.
    InternalError(String),
}

/// A `ProxyError` as plain values.
pub enum ProxyErrorView {
    InvalidPath(Seq<char>),
    UnauthorizedBucket(Seq<char>),
    S3Error(Seq<char>),
    HttpError(Seq<char>),
    KvError(Seq<char>),
    ConfigError(ConfigErrorView),
    InternalError(Seq<char>),
}

impl View for ProxyError {
    type V = ProxyErrorView;

    open spec fn view(&self) -> ProxyErrorView {
        match self {
            ProxyError::InvalidPath(reason) => ProxyErrorView::InvalidPath(reason@),
            ProxyError::UnauthorizedBucket(name) => ProxyErrorView::UnauthorizedBucket(name@),
            ProxyError::S3Error(diagnostic) => ProxyErrorView::S3Error(diagnostic@),
            ProxyError::HttpError(diagnostic) => ProxyErrorView::HttpError(diagnostic@),
            ProxyError::KvError(reason) => ProxyErrorView::KvError(reason@),
            ProxyError::ConfigError(e) => ProxyErrorView::ConfigError(e@),
            ProxyError::InternalError(reason) => ProxyErrorView::InternalError(reason@),
        }
    }
}

/// A failure written out in full, as it goes to the log.
pub open spec fn error_text(e: ProxyErrorView) -> Seq<char> {
    match e {
        ProxyErrorView::InvalidPath(reason) => "Invalid path: "@ + reason,
        ProxyErrorView::UnauthorizedBucket(name) => "Unauthorized bucket: "@ + name,
        ProxyErrorView::S3Error(diagnostic) => "S3 error: "@ + diagnostic,
        ProxyErrorView::HttpError(diagnostic) => "HTTP error: "@ + diagnostic,
        ProxyErrorView::KvError(reason) => "Cloudflare KV error: "@ + reason,
        ProxyErrorView::ConfigError(e) => "Config error: "@ + config_error_text(e),
        ProxyErrorView::InternalError(reason) => "Internal server error: "@ + reason,
    }
}

/// The status of the answer that a failure is turned into: 400 for a
/// request that cannot be used, 403 for a bucket that is not allowed, 500
/// for everything else.
pub open spec fn status_of(e: ProxyErrorView) -> u16 {
    match e {
        ProxyErrorView::InvalidPath(_) => BAD_REQUEST,
        ProxyErrorView::UnauthorizedBucket(_) => FORBIDDEN,
        _ => INTERNAL_SERVER_ERROR,
    }
}

/// What the client is told of a failure. A failure on the proxy's side is
/// named by a fixed text: its diagnostic or reason stays in the log.
pub open spec fn client_text(e: ProxyErrorView) -> Seq<char> {
    match e {
        ProxyErrorView::InvalidPath(reason) => reason,
        ProxyErrorView::UnauthorizedBucket(name) => "Access to bucket denied: "@ + name,
        ProxyErrorView::S3Error(_) => "S3 service error"@,
        ProxyErrorView::HttpError(_) => "HTTP request error"@,
        ProxyErrorView::KvError(_) => "KV storage error"@,
        ProxyErrorView::ConfigError(_) => "Config error"@,
        ProxyErrorView::InternalError(_) => "Internal server error"@,
    }
}

/// Whether two failures are of the same kind, whatever they hold.
pub open spec fn same_kind(a: ProxyErrorView, b: ProxyErrorView) -> bool {
    ||| a is InvalidPath && b is InvalidPath
    ||| a is UnauthorizedBucket && b is UnauthorizedBucket
    ||| a is S3Error && b is S3Error
    ||| a is HttpError && b is HttpError
    ||| a is KvError && b is KvError
    ||| a is ConfigError && b is ConfigError
    ||| a is InternalError && b is InternalError
}

impl ProxyError {
    /// The failure written out in full.
    pub fn to_message(&self) -> (out: String)
        ensures
            out@ == error_text(self@),
    {
        match self {
            ProxyError::InvalidPath(reason) => prefixed("Invalid path: ", reason.as_str()),
            ProxyError::UnauthorizedBucket(name) => prefixed("Unauthorized bucket: ", name.as_str()),
            ProxyError::S3Error(diagnostic) => prefixed("S3 error: ", diagnostic.as_str()),
            ProxyError::HttpError(diagnostic) => prefixed("HTTP error: ", diagnostic.as_str()),
            ProxyError::KvError(reason) => prefixed("Cloudflare KV error: ", reason.as_str()),
            ProxyError::ConfigError(e) => {
                let inner = e.to_message();
                prefixed("Config error: ", inner.as_str())
            },
            ProxyError::InternalError(reason) => prefixed(
                "Internal server error: ",
                reason.as_str(),
            ),
        }
    }

    /// The status and the body of the answer that this failure is turned
    /// into.
    pub fn into_response(self) -> (out: (u16, String))
        ensures
            out.0 == status_of(self@),
            out.1@ == client_text(self@),
    {
        match self {
            ProxyError::InvalidPath(reason) => (BAD_REQUEST, reason),
            ProxyError::UnauthorizedBucket(name) => (
                FORBIDDEN,
                prefixed("Access to bucket denied: ", name.as_str()),
            ),
            ProxyError::S3Error(_) => (INTERNAL_SERVER_ERROR, "S3 service error".to_owned()),
            ProxyError::HttpError(_) => (INTERNAL_SERVER_ERROR, "HTTP request error".to_owned()),
            ProxyError::KvError(_) => (INTERNAL_SERVER_ERROR, "KV storage error".to_owned()),
            ProxyError::ConfigError(_) => (INTERNAL_SERVER_ERROR, "Config error".to_owned()),
            ProxyError::InternalError(_) => (
                INTERNAL_SERVER_ERROR,
                "Internal server error".to_owned(),
            ),
        }
    }
}

/// What the client is told of a failure on the proxy's side depends on its
/// kind alone, not on what it holds.
pub proof fn lemma_internal_failures_are_sanitized(a: ProxyErrorView, b: ProxyErrorView)
    requires
        status_of(a) == INTERNAL_SERVER_ERROR,
        same_kind(a, b),
    ensures
        status_of(b) == INTERNAL_SERVER_ERROR,
        client_text(a) == client_text(b),
{
}

} // verus!
