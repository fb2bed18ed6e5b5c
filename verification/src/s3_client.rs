//! What a fetch from the object store hands to the request that asked.

use crate::headers::is_field_text;
use crate::headers::is_sendable_text;
use crate::config::text_of;
use vstd::prelude::*;

verus! {

/// The content type that stands in for one that cannot be sent.
pub const FALLBACK_CONTENT_TYPE: &'static str = "application/octet-stream";

/// An object as fetched: its body, which is handed through as it is, and
/// what the store said of it.
pub struct S3Response<B> {
    pub body: B,
    pub content_type: Option<String>,
    pub content_length: Option<u64>,
    pub etag: Option<String>,
    pub last_modified: Option<String>,
}

/// The content type that is passed on for the one that the store gave.
pub open spec fn content_type_of(given: Option<Seq<char>>) -> Option<Seq<char>> {
    match given {
        Some(text) => Some(
            if is_field_text(text) {
                text
            } else {
                FALLBACK_CONTENT_TYPE@
            },
        ),
        None => None,
    }
}

/// The length that is passed on for the one that the store gave: the same
/// number, a negative one counted from 2^64 downwards.
pub open spec fn content_length_of(given: Option<i64>) -> Option<u64> {
    match given {
        Some(length) => Some(
            if length >= 0 {
                length as u64
            } else {
                (length + 0x1_0000_0000_0000_0000) as u64
            },
        ),
        None => None,
    }
}

/// The view of an optional text that is borrowed.
pub open spec fn str_of(value: Option<&str>) -> Option<Seq<char>> {
    match value {
        Some(text) => Some(text@),
        None => None,
    }
}

/// Whether a text, if there is one, can be sent as a field value.
pub open spec fn sendable_if_some(value: Option<String>) -> bool {
    value matches Some(text) ==> is_field_text(text@)
}

impl<B> S3Response<B> {
    /// The response for an object with the given body, from what the store
    /// said of it. A content type that cannot be sent gives way to
    /// `FALLBACK_CONTENT_TYPE`.
    pub fn from_object(
        body: B,
        content_type: Option<&str>,
        content_length: Option<i64>,
        etag: Option<String>,
        last_modified: Option<String>,
    ) -> (out: Self)
        ensures
            out.body == body,
            text_of(out.content_type) == content_type_of(str_of(content_type)),
            out.content_length == content_length_of(content_length),
            out.etag == etag,
            out.last_modified == last_modified,
    {
        let content_type = match content_type {
            Some(text) => if is_sendable_text(text) {
                Some(text.to_owned())
            } else {
                Some(FALLBACK_CONTENT_TYPE.to_owned())
            },
            None => None,
        };
        let content_length = match content_length {
            Some(length) => if length >= 0 {
                Some(length as u64)
            } else {
                Some(u64::MAX - ((-(length + 1)) as u64))
            },
            None => None,
        };
        S3Response { body, content_type, content_length, etag, last_modified }
    }

    /// Whether every text of this response can be sent as a field value.
    pub open spec fn sendable(&self) -> bool {
        &&& sendable_if_some(self.content_type)
        &&& sendable_if_some(self.etag)
        &&& sendable_if_some(self.last_modified)
    }

    /// Tells whether every text of this response can be sent as a field
    /// value.
    pub fn is_sendable(&self) -> (ok: bool)
        ensures
            ok == self.sendable(),
    {
        let content_type_ok = match &self.content_type {
            Some(text) => is_sendable_text(text.as_str()),
            None => true,
        };
        let etag_ok = match &self.etag {
            Some(text) => is_sendable_text(text.as_str()),
            None => true,
        };
        let last_modified_ok = match &self.last_modified {
            Some(text) => is_sendable_text(text.as_str()),
            None => true,
        };
        content_type_ok && etag_ok && last_modified_ok
    }
}

} // verus!
