//! A host-based reverse proxy in front of an object store, as a library.
//!
//! The host of a request names a virtual bucket and its path names an
//! object. `router` turns the two into a bucket and a key, under the
//! whitelist and the CORS policies that `directory` holds as one snapshot,
//! and puts the answer for the fetched object together. `kv_client` builds
//! the requests to the key-value store that the directory is refreshed
//! from and reads its answers; `s3_client` holds what a fetch from the
//! object store gives; `cors` and `headers` set the fields of an answer;
//! `errors` turns failures into answers; `config` loads the settings.

pub mod config;
pub mod cors;
pub mod directory;
pub mod errors;
pub mod headers;
pub mod kv_client;
pub mod router;
pub mod s3_client;
pub mod text;
