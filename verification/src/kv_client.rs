//! Requests to the key-value store and the reading of its answers.

use crate::config::ConfigError;
use crate::config::ConfigErrorView;
use crate::config::KV_NAMESPACE_ID_VAR;
use crate::errors::ProxyError;
use crate::errors::ProxyErrorView;
use crate::text::prefixed;
use vstd::prelude::*;
use vstd::string::StringExecFns;

verus! {

/// Where the accounts of the key-value store are found.
pub const KV_API_BASE: &'static str = "https://api.cloudflare.com/client/v4/accounts/";

/// Status of the answer for a key that holds nothing.
pub const NOT_FOUND: u16 = 404;

/// What is needed to ask the key-value store for a value.
#[derive(Debug)]
pub struct KvClient {
    account_id: String,
    api_token: String,
    namespace_id: String,
}

/// A `KvClient` as plain values.
pub struct KvClientView {
    pub account_id: Seq<char>,
    pub api_token: Seq<char>,
    pub namespace_id: Seq<char>,
}

impl View for KvClient {
    type V = KvClientView;

    closed spec fn view(&self) -> KvClientView {
        KvClientView {
            account_id: self.account_id@,
            api_token: self.api_token@,
            namespace_id: self.namespace_id@,
        }
    }
}

/// The address under which `client` finds the value of `key`.
pub open spec fn value_url_of(client: KvClientView, key: Seq<char>) -> Seq<char> {
    KV_API_BASE@ + client.account_id + "/storage/kv/namespaces/"@ + client.namespace_id
        + "/values/"@ + key
}

/// Whether an answer with status `code` reports success.
pub open spec fn is_success(code: u16) -> bool {
    200 <= code < 300
}

/// Whether the body of an answer with status `code` is read at all: not
/// that of the answer for a key that holds nothing.
pub open spec fn body_wanted(code: u16) -> bool {
    code != NOT_FOUND
}

/// The body as far as it could be read: nothing where it could not.
pub open spec fn body_or_empty(body: Result<String, String>) -> Seq<char> {
    match body {
        Ok(text) => text@,
        Err(_) => Seq::empty(),
    }
}

/// The value that an answer of the key-value store stands for, by its
/// status code, the status as it is displayed, and its body or the reason
/// why the body could not be read.
pub open spec fn answer_of(code: u16, status: Seq<char>, body: Result<String, String>) -> Result<
    Option<Seq<char>>,
    ProxyErrorView,
> {
    if is_success(code) {
        match body {
            Ok(text) => Ok(Some(text@)),
            Err(reason) => Err(ProxyErrorView::KvError("Read response failed: "@ + reason@)),
        }
    } else if code == NOT_FOUND {
        Ok(None)
    } else {
        Err(ProxyErrorView::KvError("KV API error: "@ + status + " - "@ + body_or_empty(body)))
    }
}

/// The view of a value read from the key-value store, or of the failure.
pub open spec fn value_view(outcome: Result<Option<String>, ProxyError>) -> Result<
    Option<Seq<char>>,
    ProxyErrorView,
> {
    match outcome {
        Ok(Some(text)) => Ok(Some(text@)),
        Ok(None) => Ok(None),
        Err(e) => Err(e@),
    }
}

impl KvClient {
    /// A client for the namespace `namespace_id` of the account
    /// `account_id`; fails where the environment names no namespace.
    pub fn new(account_id: &str, api_token: &str, namespace_id: Option<String>) -> (out: Result<
        KvClient,
        ProxyError,
    >)
        ensures
            match out {
                Ok(client) => namespace_id is Some && client@ == (KvClientView {
                    account_id: account_id@,
                    api_token: api_token@,
                    namespace_id: namespace_id->0@,
                }),
                Err(e) => namespace_id is None && e@ == ProxyErrorView::ConfigError(
                    ConfigErrorView::MissingEnvVar(KV_NAMESPACE_ID_VAR@),
                ),
            },
    {
        match namespace_id {
            Some(namespace_id) => Ok(
                KvClient {
                    account_id: account_id.to_owned(),
                    api_token: api_token.to_owned(),
                    namespace_id,
                },
            ),
            None => Err(
                ProxyError::ConfigError(ConfigError::MissingEnvVar(KV_NAMESPACE_ID_VAR.to_owned())),
            ),
        }
    }

    /// The address under which the value of `key` is found.
    pub fn value_url(&self, key: &str) -> (out: String)
        ensures
            out@ == value_url_of(self@, key@),
    {
        let mut out = prefixed(KV_API_BASE, self.account_id.as_str());
        out.append("/storage/kv/namespaces/");
        out.append(self.namespace_id.as_str());
        out.append("/values/");
        out.append(key);
        out
    }

    /// The value of the `Authorization` field of a request.
    pub fn authorization(&self) -> (out: String)
        ensures
            out@ == "Bearer "@ + self@.api_token,
    {
        prefixed("Bearer ", self.api_token.as_str())
    }

    /// The failure of a request that got no answer, from its diagnostic.
    pub fn request_failed(diagnostic: &str) -> (out: ProxyError)
        ensures
            out@ == ProxyErrorView::KvError("KV request failed: "@ + diagnostic@),
    {
        ProxyError::KvError(prefixed("KV request failed: ", diagnostic))
    }

    /// Tells whether the body of an answer with status `code` is to be read
    /// before the answer is handed to `read_response`.
    pub fn wants_body(code: u16) -> (out: bool)
        ensures
            out == body_wanted(code),
    {
        code != NOT_FOUND
    }

    /// Reads an answer of the key-value store: the value on success, nothing
    /// for a key that holds nothing, a failure for any other status.
    pub fn read_response(code: u16, status: &str, body: Result<String, String>) -> (out: Result<
        Option<String>,
        ProxyError,
    >)
        ensures
            value_view(out) == answer_of(code, status@, body),
    {
        if 200 <= code && code < 300 {
            match body {
                Ok(text) => Ok(Some(text)),
                Err(reason) => Err(
                    ProxyError::KvError(prefixed("Read response failed: ", reason.as_str())),
                ),
            }
        } else if code == NOT_FOUND {
            Ok(None)
        } else {
            let mut message = prefixed("KV API error: ", status);
            message.append(" - ");
            match body {
                Ok(text) => {
                    message.append(text.as_str());
                },
                Err(_) => {
                    assert(message@ + Seq::<char>::empty() =~= message@);
                },
            }
            Err(ProxyError::KvError(message))
        }
    }
}

} // verus!
