//! From a request's host and path to a bucket and a key, and from the
//! fetched object to the fields of the answer.

use crate::config::text_of;
use crate::cors::cors_fields;
use crate::cors::lemma_cors_field_names;
use crate::cors::policy_sendable;
use crate::cors::CorsConfig;
use crate::cors::CorsPolicy;
use crate::directory::bucket_of;
use crate::directory::policy_of;
use crate::directory::policy_view;
use crate::directory::DirectorySnapshot;
use crate::directory::DirectoryView;
use crate::errors::ProxyError;
use crate::errors::ProxyErrorView;
use crate::headers::field_views;
use crate::headers::fields_sendable;
use crate::headers::header_fields;
use crate::headers::header_names_held;
use crate::headers::is_field_name;
use crate::headers::is_field_text;
use crate::headers::lemma_names_added_bounds;
use crate::headers::lemma_room_by_count;
use crate::headers::new_header_map;
use crate::headers::set_headers;
use crate::headers::with_fields;
use crate::headers::Fields;
use crate::s3_client::S3Response;
use crate::text::chars_of;
use crate::text::decimal;
use crate::text::digit_char;
use crate::text::to_decimal;
use axum::http::HeaderMap;
use vstd::prelude::*;
use vstd::string::StringExecFns;

verus! {

/// The virtual name of a request to the root domain itself, and of one
/// whose host is none of its subdomains.
pub const APEX: &'static str = "@";

/// The domain whose subdomains name the buckets.
pub const ROOT_DOMAIN: &'static str = "delbertbeta.life";

/// What is asked for where the path names a directory.
pub const INDEX_DOCUMENT: &'static str = "index.html";

/// Why a request with an empty virtual name is turned away.
pub const NO_BUCKET_IN_HOST: &'static str = "Bucket not found in host";

/// Status of an answer that carries the object, and of one to a preflight.
pub const OK: u16 = 200;

/// Name of the field that carries the content type.
pub const CONTENT_TYPE: &'static str = "content-type";

/// Name of the field that carries the length of the body.
pub const CONTENT_LENGTH: &'static str = "content-length";

/// Name of the field that carries the entity tag.
pub const ETAG: &'static str = "etag";

/// Name of the field that carries the time of the last change.
pub const LAST_MODIFIED: &'static str = "last-modified";

/// Name of the field that says how the answer may be cached.
pub const CACHE_CONTROL: &'static str = "cache-control";

/// How every answer may be cached: by anyone, for two hours.
pub const CACHE_POLICY: &'static str = "public, max-age=7200";

/// Name of the field that names the proxy.
pub const SERVED_BY: &'static str = "x-served-by";

/// The name of the proxy.
pub const PROXY_NAME: &'static str = "r2-proxy";

/// The number of characters of `host` before its first dot, all of them
/// where it has none.
pub open spec fn label_len(host: Seq<char>) -> int
    decreases host.len(),
{
    if host.len() == 0 || host[0] == '.' {
        0
    } else {
        1 + label_len(host.drop_first())
    }
}

/// Whether `text` holds no dot.
pub open spec fn is_dot_free(text: Seq<char>) -> bool {
    forall|i: int| 0 <= i < text.len() ==> #[trigger] text[i] != '.'
}

/// The virtual name that `host` stands for under the root domain `root`:
/// what stands before the first dot where `root` is what follows it, and
/// `APEX` otherwise.
pub open spec fn virtual_name_of(host: Seq<char>, root: Seq<char>) -> Seq<char> {
    let dot = label_len(host);
    if dot < host.len() && host.skip(dot + 1) == root {
        host.take(dot)
    } else {
        APEX@
    }
}

/// `path` without one leading slash.
pub open spec fn stripped(path: Seq<char>) -> Seq<char> {
    if path.len() > 0 && path[0] == '/' {
        path.drop_first()
    } else {
        path
    }
}

/// The key of the object that `path` asks for: the path without one leading
/// slash, with `INDEX_DOCUMENT` after it where it is then empty or ends in a
/// slash.
pub open spec fn object_key_of(path: Seq<char>) -> Seq<char> {
    let key = stripped(path);
    if key.len() == 0 || key.last() == '/' {
        key + INDEX_DOCUMENT@
    } else {
        key
    }
}

/// Where a request goes: the bucket and the key to fetch, and the CORS
/// policy of the answer.
#[derive(Debug)]
pub struct Route {
    pub virtual_name: String,
    pub bucket: String,
    pub key: String,
    pub cors: Option<CorsConfig>,
}

/// A `Route` as plain values.
pub struct RouteView {
    pub virtual_name: Seq<char>,
    pub bucket: Seq<char>,
    pub key: Seq<char>,
    pub cors: Option<CorsPolicy>,
}

impl View for Route {
    type V = RouteView;

    open spec fn view(&self) -> RouteView {
        RouteView {
            virtual_name: self.virtual_name@,
            bucket: self.bucket@,
            key: self.key@,
            cors: policy_view(self.cors),
        }
    }
}

/// The bucket that a request for `name` may fetch from, given what the
/// whitelist holds for it: that bucket, unless there is none or it is empty.
pub open spec fn authorized(name: Seq<char>, bucket: Option<Seq<char>>) -> Result<
    Seq<char>,
    ProxyErrorView,
> {
    match bucket {
        Some(bucket) => if bucket.len() > 0 {
            Ok(bucket)
        } else {
            Err(ProxyErrorView::UnauthorizedBucket(name))
        },
        None => Err(ProxyErrorView::UnauthorizedBucket(name)),
    }
}

/// Where a request for `path` on `host` goes under `directory`. An empty
/// virtual name is turned away before anything is looked up; a name that
/// the whitelist does not hold, or holds with an empty bucket, is not
/// allowed; the policy is the one of the name, none where it has none.
pub open spec fn route_of(
    directory: DirectoryView,
    host: Seq<char>,
    root: Seq<char>,
    path: Seq<char>,
) -> Result<RouteView, ProxyErrorView> {
    let name = virtual_name_of(host, root);
    if name.len() == 0 {
        Err(ProxyErrorView::InvalidPath(NO_BUCKET_IN_HOST@))
    } else {
        match authorized(name, bucket_of(directory.whitelist, name)) {
            Ok(bucket) => Ok(
                RouteView {
                    virtual_name: name,
                    bucket,
                    key: object_key_of(path),
                    cors: policy_of(directory.cors, name),
                },
            ),
            Err(e) => Err(e),
        }
    }
}

/// The view of a bucket or of the failure to authorize.
pub open spec fn bucket_view(outcome: Result<String, ProxyError>) -> Result<
    Seq<char>,
    ProxyErrorView,
> {
    match outcome {
        Ok(bucket) => Ok(bucket@),
        Err(e) => Err(e@),
    }
}

/// The view of a route or of the failure to find one.
pub open spec fn route_view(outcome: Result<Route, ProxyError>) -> Result<
    RouteView,
    ProxyErrorView,
> {
    match outcome {
        Ok(route) => Ok(route@),
        Err(e) => Err(e@),
    }
}

/// The fields that an answer carries for the object itself, in the order in
/// which they are set: what the store said of the object as far as it said
/// it, then the cache policy and the name of the proxy.
pub open spec fn object_fields(
    content_type: Option<Seq<char>>,
    content_length: Option<u64>,
    etag: Option<Seq<char>>,
    last_modified: Option<Seq<char>>,
) -> Seq<(Seq<char>, Seq<char>)> {
    let type_part = match content_type {
        Some(text) => seq![(CONTENT_TYPE@, text)],
        None => seq![],
    };
    let length_part = match content_length {
        Some(length) => seq![(CONTENT_LENGTH@, decimal(length as nat))],
        None => seq![],
    };
    let etag_part = match etag {
        Some(text) => seq![(ETAG@, text)],
        None => seq![],
    };
    let modified_part = match last_modified {
        Some(text) => seq![(LAST_MODIFIED@, text)],
        None => seq![],
    };
    type_part + length_part + etag_part + modified_part + seq![
        (CACHE_CONTROL@, CACHE_POLICY@),
        (SERVED_BY@, PROXY_NAME@),
    ]
}

/// The fields of the answer for an object: those of the object, and on top
/// of them those of the policy where there is one.
pub open spec fn answer_fields(
    content_type: Option<Seq<char>>,
    content_length: Option<u64>,
    etag: Option<Seq<char>>,
    last_modified: Option<Seq<char>>,
    cors: Option<CorsPolicy>,
) -> Fields {
    let base = with_fields(
        Fields::empty(),
        object_fields(content_type, content_length, etag, last_modified),
    );
    match cors {
        Some(policy) => with_fields(base, cors_fields(policy)),
        None => base,
    }
}

/// The view of an optional policy that is borrowed.
pub open spec fn borrowed_policy(cors: Option<&CorsConfig>) -> Option<CorsPolicy> {
    match cors {
        Some(config) => Some(config@),
        None => None,
    }
}

/// An answer to a request: its status, its fields and its body.
pub struct ProxyResponse<B> {
    pub status: u16,
    pub headers: HeaderMap,
    pub body: B,
}

/// Tells whether `a`, from `from` on, is `b`.
fn tail_is(a: &Vec<char>, from: usize, b: &Vec<char>) -> (same: bool)
    requires
        from <= a@.len(),
    ensures
        same == (a@.skip(from as int) == b@),
{
    let n = b.len();
    if a.len() - from != n {
        return false;
    }
    let mut i: usize = 0;
    while i < n
        invariant
            i <= n,
            n == b@.len(),
            from + n == a@.len(),
            a@.len() <= usize::MAX,
            forall|j: int| 0 <= j < i ==> a@[from + j] == b@[j],
        decreases n - i,
    {
        if a[from + i] != b[i] {
            assert(a@.skip(from as int)[i as int] != b@[i as int]);
            return false;
        }
        i += 1;
    }
    assert(a@.skip(from as int) =~= b@);
    true
}

/// The virtual name that `host` stands for under the root domain `root`.
pub fn virtual_name(host: &str, root: &str) -> (out: String)
    ensures
        out@ == virtual_name_of(host@, root@),
{
    let chars = chars_of(host);
    let n = chars.len();
    let mut dot: usize = 0;
    assert(host@.skip(0) =~= host@);
    while dot < n && chars[dot] != '.'
        invariant
            dot <= n,
            n == chars@.len(),
            chars@ == host@,
            label_len(host@) == dot + label_len(host@.skip(dot as int)),
        decreases n - dot,
    {
        proof {
            let rest = host@.skip(dot as int);
            assert(rest[0] == chars@[dot as int]);
            assert(rest.drop_first() =~= host@.skip(dot + 1));
        }
        dot += 1;
    }
    proof {
        let rest = host@.skip(dot as int);
        if dot < n {
            assert(rest[0] == chars@[dot as int]);
        }
        assert(label_len(rest) == 0);
    }
    if dot < n {
        let root_chars = chars_of(root);
        if tail_is(&chars, dot + 1, &root_chars) {
            return host.substring_char(0, dot).to_owned();
        }
    }
    APEX.to_owned()
}

/// The key of the object that `path` asks for.
pub fn object_key(path: &str) -> (out: String)
    ensures
        out@ == object_key_of(path@),
{
    let chars = chars_of(path);
    let n = chars.len();
    let start: usize = if n > 0 && chars[0] == '/' {
        1
    } else {
        0
    };
    let mut key = path.substring_char(start, n).to_owned();
    proof {
        assert(key@ =~= stripped(path@));
        if start < n {
            assert(key@.last() == chars@[n - 1]);
        }
    }
    if start == n || chars[n - 1] == '/' {
        key.append(INDEX_DOCUMENT);
    }
    key
}

/// The bucket that a request for `name` may fetch from, given what the
/// whitelist holds for it.
pub fn authorize(name: &str, bucket: Option<String>) -> (out: Result<String, ProxyError>)
    ensures
        bucket_view(out) == authorized(name@, text_of(bucket)),
{
    match bucket {
        Some(bucket) => if bucket.as_str().is_empty() {
            Err(ProxyError::UnauthorizedBucket(name.to_owned()))
        } else {
            Ok(bucket)
        },
        None => Err(ProxyError::UnauthorizedBucket(name.to_owned())),
    }
}

/// Finds where a request for `path` on `host` goes: both lookups are made
/// in the one snapshot given.
pub fn resolve(directory: &DirectorySnapshot, host: &str, root: &str, path: &str) -> (out: Result<
    Route,
    ProxyError,
>)
    ensures
        route_view(out) == route_of(directory@, host@, root@, path@),
{
    let name = virtual_name(host, root);
    if name.as_str().is_empty() {
        return Err(ProxyError::InvalidPath(NO_BUCKET_IN_HOST.to_owned()));
    }
    let key = object_key(path);
    let bucket = match authorize(name.as_str(), directory.lookup_bucket(name.as_str())) {
        Ok(bucket) => bucket,
        Err(e) => {
            return Err(e);
        },
    };
    let cors = directory.lookup_cors(name.as_str());
    Ok(Route { virtual_name: name, bucket, key, cors })
}

/// The status of the answer to a preflight request, which has no body and is
/// given without any lookup or fetch.
pub fn handle_options() -> (out: u16)
    ensures
        out == OK,
{
    OK
}

/// A number written in decimal can be sent as a field value.
pub proof fn lemma_decimal_sendable(n: nat)
    ensures
        is_field_text(decimal(n)),
    decreases n,
{
    if n >= 10 {
        lemma_decimal_sendable(n / 10);
    }
    assert forall|i: int| 0 <= i < decimal(n).len() implies crate::headers::is_value_char(
        #[trigger] decimal(n)[i],
    ) by {
        if n >= 10 && i < decimal(n / 10).len() {
            assert(decimal(n)[i] == decimal(n / 10)[i]);
        } else {
            assert(decimal(n)[i] == digit_char(n % 10));
        }
    }
}

/// The fields of an object can be set where its texts can be sent, and
/// there are at most six of them.
pub proof fn lemma_object_fields_sendable(
    content_type: Option<Seq<char>>,
    content_length: Option<u64>,
    etag: Option<Seq<char>>,
    last_modified: Option<Seq<char>>,
)
    requires
        content_type matches Some(text) ==> is_field_text(text),
        etag matches Some(text) ==> is_field_text(text),
        last_modified matches Some(text) ==> is_field_text(text),
    ensures
        fields_sendable(object_fields(content_type, content_length, etag, last_modified)),
        object_fields(content_type, content_length, etag, last_modified).len() <= 6,
{
    reveal_strlit("content-type");
    reveal_strlit("content-length");
    reveal_strlit("etag");
    reveal_strlit("last-modified");
    reveal_strlit("cache-control");
    reveal_strlit("x-served-by");
    reveal_strlit("public, max-age=7200");
    reveal_strlit("r2-proxy");
    if content_length is Some {
        lemma_decimal_sendable(content_length->0 as nat);
    }
    let fields = object_fields(content_type, content_length, etag, last_modified);
    assert(is_field_text(CACHE_POLICY@));
    assert(is_field_text(PROXY_NAME@));
    assert forall|i: int| 0 <= i < fields.len() implies is_field_name((#[trigger] fields[i]).0)
        && is_field_text(fields[i].1) by {
        let f = fields[i];
        assert(f == (CONTENT_TYPE@, content_type->0) || f == (
            CONTENT_LENGTH@,
            decimal(content_length->0 as nat),
        ) || f == (ETAG@, etag->0) || f == (LAST_MODIFIED@, last_modified->0) || f == (
            CACHE_CONTROL@,
            CACHE_POLICY@,
        ) || f == (SERVED_BY@, PROXY_NAME@));
    }
}

/// Puts the answer for a fetched object together: status 200, the fields
/// of the object, those of the policy on top where there is one, and the
/// body as it came.
pub fn build_response<B>(object: S3Response<B>, cors: Option<&CorsConfig>) -> (out: ProxyResponse<
    B,
>)
    requires
        object.sendable(),
        cors matches Some(config) ==> policy_sendable(config@),
    ensures
        out.status == OK,
        out.body == object.body,
        header_fields(out.headers) == answer_fields(
            text_of(object.content_type),
            object.content_length,
            text_of(object.etag),
            text_of(object.last_modified),
            borrowed_policy(cors),
        ),
{
    let mut fields: Vec<(&'static str, String)> = Vec::new();
    if let Some(text) = &object.content_type {
        fields.push((CONTENT_TYPE, text.clone()));
    }
    if let Some(length) = object.content_length {
        fields.push((CONTENT_LENGTH, to_decimal(length)));
    }
    if let Some(text) = &object.etag {
        fields.push((ETAG, text.clone()));
    }
    if let Some(text) = &object.last_modified {
        fields.push((LAST_MODIFIED, text.clone()));
    }
    fields.push((CACHE_CONTROL, CACHE_POLICY.to_owned()));
    fields.push((SERVED_BY, PROXY_NAME.to_owned()));
    proof {
        assert(field_views(fields@) =~= object_fields(
            text_of(object.content_type),
            object.content_length,
            text_of(object.etag),
            text_of(object.last_modified),
        ));
        lemma_object_fields_sendable(
            text_of(object.content_type),
            object.content_length,
            text_of(object.etag),
            text_of(object.last_modified),
        );
    }
    let mut headers = new_header_map();
    proof {
        lemma_room_by_count(0, Fields::empty(), field_views(fields@));
        lemma_names_added_bounds(Fields::empty(), field_views(fields@));
    }
    set_headers(&mut headers, &fields);
    if let Some(config) = cors {
        proof {
            lemma_cors_field_names(config@);
            lemma_room_by_count(
                header_names_held(headers),
                header_fields(headers),
                cors_fields(config@),
            );
        }
        config.apply_headers(&mut headers);
    }
    ProxyResponse { status: OK, headers, body: object.body }
}

/// A host made of a label without a dot, a dot and the root domain stands
/// for that label.
pub proof fn lemma_subdomain_names_its_label(label: Seq<char>, root: Seq<char>)
    requires
        is_dot_free(label),
    ensures
        virtual_name_of(label + seq!['.'] + root, root) == label,
{
    let host = label + seq!['.'] + root;
    lemma_label_len(host, label.len() as int);
    assert(host.skip((label.len() + 1) as int) =~= root);
    assert(host.take(label.len() as int) =~= label);
}

/// The root domain itself stands for `APEX`.
pub proof fn lemma_root_names_apex(root: Seq<char>)
    ensures
        virtual_name_of(root, root) == APEX@,
{
    let dot = label_len(root);
    lemma_label_len_bounds(root);
    if dot < root.len() {
        assert(root.skip(dot + 1).len() < root.len());
    }
}

/// A host that is not a label without a dot, a dot and the root domain
/// stands for `APEX`.
pub proof fn lemma_other_host_names_apex(host: Seq<char>, root: Seq<char>)
    requires
        forall|label: Seq<char>| is_dot_free(label) ==> host != #[trigger] (label + seq!['.'])
            + root,
    ensures
        virtual_name_of(host, root) == APEX@,
{
    let dot = label_len(host);
    lemma_label_len_bounds(host);
    if dot < host.len() && host.skip(dot + 1) == root {
        let label = host.take(dot);
        assert(is_dot_free(label)) by {
            assert forall|i: int| 0 <= i < label.len() implies #[trigger] label[i] != '.' by {
                assert(label[i] == host[i]);
            }
        }
        assert(host =~= (label + seq!['.']) + root);
    }
}

/// `label_len` counts the characters before the first dot: they are no
/// dots, and a dot follows them unless the text ends there.
pub proof fn lemma_label_len_bounds(host: Seq<char>)
    ensures
        0 <= label_len(host) <= host.len(),
        forall|i: int| 0 <= i < label_len(host) ==> #[trigger] host[i] != '.',
        label_len(host) < host.len() ==> host[label_len(host)] == '.',
    decreases host.len(),
{
    if !(host.len() == 0 || host[0] == '.') {
        let rest = host.drop_first();
        lemma_label_len_bounds(rest);
        assert forall|i: int| 0 <= i < label_len(host) implies #[trigger] host[i] != '.' by {
            if i > 0 {
                assert(host[i] == rest[i - 1]);
            }
        }
        if label_len(host) < host.len() {
            assert(host[label_len(host)] == rest[label_len(rest)]);
        }
    }
}

/// Where the first `n` characters of `host` are no dots and a dot follows,
/// `label_len` is `n`.
pub proof fn lemma_label_len(host: Seq<char>, n: int)
    requires
        0 <= n < host.len(),
        forall|i: int| 0 <= i < n ==> #[trigger] host[i] != '.',
        host[n] == '.',
    ensures
        label_len(host) == n,
    decreases n,
{
    if n > 0 {
        let rest = host.drop_first();
        assert forall|i: int| 0 <= i < n - 1 implies #[trigger] rest[i] != '.' by {
            assert(rest[i] == host[i + 1]);
        }
        assert(rest[n - 1] == host[n]);
        lemma_label_len(rest, n - 1);
    }
}

/// A path that is empty or ends in a slash asks for the index document of
/// what it names; any other path asks for itself without one leading slash.
pub proof fn lemma_object_key_cases(path: Seq<char>)
    ensures
        path.len() == 0 || path.last() == '/' ==> object_key_of(path) == stripped(path)
            + INDEX_DOCUMENT@,
        !(path.len() == 0 || path.last() == '/') ==> object_key_of(path) == stripped(path),
{
    let key = stripped(path);
    if path.len() > 0 && path[0] == '/' && key.len() > 0 {
        assert(key.last() == path.last());
    }
}

/// An answer without a policy carries no field but those of the object.
pub proof fn lemma_no_policy_no_cors_fields(
    content_type: Option<Seq<char>>,
    content_length: Option<u64>,
    etag: Option<Seq<char>>,
    last_modified: Option<Seq<char>>,
    name: Seq<char>,
)
    requires
        answer_fields(content_type, content_length, etag, last_modified, None).contains_key(name),
    ensures
        name == CONTENT_TYPE@ || name == CONTENT_LENGTH@ || name == ETAG@ || name
            == LAST_MODIFIED@ || name == CACHE_CONTROL@ || name == SERVED_BY@,
{
    lemma_with_fields_names(
        object_fields(content_type, content_length, etag, last_modified),
        name,
    );
}

/// A name that fields set on an empty map hold is the name of one of them.
pub proof fn lemma_with_fields_names(fields: Seq<(Seq<char>, Seq<char>)>, name: Seq<char>)
    requires
        with_fields(Fields::empty(), fields).contains_key(name),
    ensures
        exists|i: int| 0 <= i < fields.len() && (#[trigger] fields[i]).0 == name,
    decreases fields.len(),
{
    if fields.len() > 0 {
        let last = fields.len() - 1;
        if fields.last().0 == name {
            assert(fields[last].0 == name);
        } else {
            lemma_with_fields_names(fields.drop_last(), name);
            let i = choose|i: int|
                0 <= i < fields.drop_last().len() && (#[trigger] fields.drop_last()[i]).0 == name;
            assert(fields[i].0 == name);
        }
    }
}

/// A request whose virtual name the whitelist does not hold, or holds with
/// an empty bucket, is never routed: it is refused as not allowed.
pub proof fn lemma_unlisted_name_is_refused(
    directory: DirectoryView,
    host: Seq<char>,
    root: Seq<char>,
    path: Seq<char>,
)
    requires
        virtual_name_of(host, root).len() > 0,
        !directory.whitelist.contains_key(virtual_name_of(host, root))
            || directory.whitelist[virtual_name_of(host, root)].len() == 0,
    ensures
        route_of(directory, host, root, path) == Err::<RouteView, ProxyErrorView>(
            ProxyErrorView::UnauthorizedBucket(virtual_name_of(host, root)),
        ),
{
}

/// A request is routed only to the bucket that the whitelist holds for its
/// virtual name, with the key of its path and the policy of its name.
pub proof fn lemma_route_is_the_listed_bucket(
    directory: DirectoryView,
    host: Seq<char>,
    root: Seq<char>,
    path: Seq<char>,
)
    requires
        route_of(directory, host, root, path) is Ok,
    ensures
        directory.whitelist.contains_key(virtual_name_of(host, root)),
        route_of(directory, host, root, path)->Ok_0.bucket
            == directory.whitelist[virtual_name_of(host, root)],
        route_of(directory, host, root, path)->Ok_0.bucket.len() > 0,
        route_of(directory, host, root, path)->Ok_0.key == object_key_of(path),
        route_of(directory, host, root, path)->Ok_0.cors == policy_of(
            directory.cors,
            virtual_name_of(host, root),
        ),
{
}

} // verus!
