//! Per-bucket CORS policy and the response header fields that it sets.

use crate::headers::fields_sendable;
use crate::headers::field_views;
use crate::headers::header_fields;
use crate::headers::has_room;
use crate::headers::header_names_held;
use crate::headers::header_names_len;
use crate::headers::is_field_text;
use crate::headers::is_sendable_text;
use crate::headers::set_headers;
use crate::headers::lemma_room_by_count;
use crate::headers::lemma_set_twice_changes_nothing;
use crate::headers::lemma_with_fields_last;
use crate::headers::lemma_with_fields_others;
use crate::headers::names_added;
use crate::headers::with_fields;
use crate::headers::Fields;
use crate::headers::HEADER_NAMES_LIMIT;
use crate::text::decimal;
use crate::text::join;
use crate::text::joined;
use crate::text::texts;
use crate::text::to_decimal;
use axum::http::HeaderMap;
use vstd::prelude::*;
use vstd::utf8::encode_utf8;

verus! {

/// Name of the field that carries the allowed origin.
pub const ALLOW_ORIGIN: &'static str = "access-control-allow-origin";

/// Name of the field that lists the allowed methods.
pub const ALLOW_METHODS: &'static str = "access-control-allow-methods";

/// Name of the field that lists the allowed request headers.
pub const ALLOW_HEADERS: &'static str = "access-control-allow-headers";

/// Name of the field that lists the response headers a script may read.
pub const EXPOSE_HEADERS: &'static str = "access-control-expose-headers";

/// Name of the field that says how long a preflight answer may be kept.
pub const MAX_AGE: &'static str = "access-control-max-age";

/// Name of the field that allows credentials.
pub const ALLOW_CREDENTIALS: &'static str = "access-control-allow-credentials";

/// What stands between the items of a list-valued field.
pub const LIST_SEPARATOR: &'static str = ", ";

/// The CORS policy of one virtual name.
#[derive(Debug)]
pub struct CorsConfig {
    pub allowed_origins: Vec<String>,
    pub allowed_methods: Vec<String>,
    pub allowed_headers: Vec<String>,
    pub expose_headers: Vec<String>,
    pub max_age: Option<u32>,
    pub allow_credentials: bool,
}

/// A CORS policy as plain values.
pub struct CorsPolicy {
    pub allowed_origins: Seq<Seq<char>>,
    pub allowed_methods: Seq<Seq<char>>,
    pub allowed_headers: Seq<Seq<char>>,
    pub expose_headers: Seq<Seq<char>>,
    pub max_age: Option<u32>,
    pub allow_credentials: bool,
}

impl View for CorsConfig {
    type V = CorsPolicy;

    open spec fn view(&self) -> CorsPolicy {
        CorsPolicy {
            allowed_origins: texts(self.allowed_origins@),
            allowed_methods: texts(self.allowed_methods@),
            allowed_headers: texts(self.allowed_headers@),
            expose_headers: texts(self.expose_headers@),
            max_age: self.max_age,
            allow_credentials: self.allow_credentials,
        }
    }
}

/// The policy used where none is configured: any origin, `GET` and
/// `OPTIONS`, any request header, nothing exposed, one day, no credentials.
pub open spec fn default_policy() -> CorsPolicy {
    CorsPolicy {
        allowed_origins: seq!["*"@],
        allowed_methods: seq!["GET"@, "OPTIONS"@],
        allowed_headers: seq!["*"@],
        expose_headers: seq![],
        max_age: Some(86400u32),
        allow_credentials: false,
    }
}

/// The fields that `policy` sets, in the order in which they are set: the
/// first allowed origin if there is one, the allowed methods and the allowed
/// headers in any case, the exposed headers unless there are none, the
/// maximum age if there is one, and the credentials flag only when it is set.
pub open spec fn cors_fields(policy: CorsPolicy) -> Seq<(Seq<char>, Seq<char>)> {
    let origin = if policy.allowed_origins.len() > 0 {
        seq![(ALLOW_ORIGIN@, policy.allowed_origins[0])]
    } else {
        seq![]
    };
    let lists = seq![
        (ALLOW_METHODS@, joined(policy.allowed_methods, LIST_SEPARATOR@)),
        (ALLOW_HEADERS@, joined(policy.allowed_headers, LIST_SEPARATOR@)),
    ];
    let expose = if policy.expose_headers.len() > 0 {
        seq![(EXPOSE_HEADERS@, joined(policy.expose_headers, LIST_SEPARATOR@))]
    } else {
        seq![]
    };
    let max_age = match policy.max_age {
        Some(seconds) => seq![(MAX_AGE@, decimal(seconds as nat))],
        None => seq![],
    };
    let credentials = if policy.allow_credentials {
        seq![(ALLOW_CREDENTIALS@, "true"@)]
    } else {
        seq![]
    };
    origin + lists + expose + max_age + credentials
}

/// Whether every text that `policy` would set can be sent as a field value.
pub open spec fn policy_sendable(policy: CorsPolicy) -> bool {
    forall|i: int|
        0 <= i < cors_fields(policy).len() ==> is_field_text((#[trigger] cors_fields(policy)[i]).1)
}

fn clone_texts(items: &Vec<String>) -> (out: Vec<String>)
    ensures
        out@ == items@,
{
    let mut out: Vec<String> = Vec::new();
    let n = items.len();
    let mut i: usize = 0;
    while i < n
        invariant
            i <= n,
            n == items@.len(),
            out@ == items@.take(i as int),
        decreases n - i,
    {
        out.push(items[i].clone());
        proof {
            assert(items@.take(i + 1) =~= items@.take(i as int).push(items@[i as int]));
        }
        i += 1;
    }
    proof {
        assert(items@.take(n as int) =~= items@);
    }
    out
}

impl Clone for CorsConfig {
    fn clone(&self) -> (out: Self)
        ensures
            out@ == self@,
    {
        let out = CorsConfig {
            allowed_origins: clone_texts(&self.allowed_origins),
            allowed_methods: clone_texts(&self.allowed_methods),
            allowed_headers: clone_texts(&self.allowed_headers),
            expose_headers: clone_texts(&self.expose_headers),
            max_age: self.max_age,
            allow_credentials: self.allow_credentials,
        };
        out
    }
}

impl Default for CorsConfig {
    fn default() -> (out: Self)
        ensures
            out@ == default_policy(),
    {
        let mut allowed_origins: Vec<String> = Vec::new();
        allowed_origins.push("*".to_owned());
        let mut allowed_methods: Vec<String> = Vec::new();
        allowed_methods.push("GET".to_owned());
        allowed_methods.push("OPTIONS".to_owned());
        let mut allowed_headers: Vec<String> = Vec::new();
        allowed_headers.push("*".to_owned());
        let out = CorsConfig {
            allowed_origins,
            allowed_methods,
            allowed_headers,
            expose_headers: Vec::new(),
            max_age: Some(86400),
            allow_credentials: false,
        };
        proof {
            assert(out@.allowed_origins =~= default_policy().allowed_origins);
            assert(out@.allowed_methods =~= default_policy().allowed_methods);
            assert(out@.allowed_headers =~= default_policy().allowed_headers);
            assert(out@.expose_headers =~= default_policy().expose_headers);
        }
        out
    }
}

impl CorsConfig {
    /// The fields that this policy sets, in order.
    pub fn header_fields(&self) -> (fields: Vec<(&'static str, String)>)
        ensures
            field_views(fields@) == cors_fields(self@),
    {
        let mut fields: Vec<(&'static str, String)> = Vec::new();
        if self.allowed_origins.len() > 0 {
            fields.push((ALLOW_ORIGIN, self.allowed_origins[0].clone()));
        }
        fields.push((ALLOW_METHODS, join(&self.allowed_methods, LIST_SEPARATOR)));
        fields.push((ALLOW_HEADERS, join(&self.allowed_headers, LIST_SEPARATOR)));
        if self.expose_headers.len() > 0 {
            fields.push((EXPOSE_HEADERS, join(&self.expose_headers, LIST_SEPARATOR)));
        }
        if let Some(seconds) = self.max_age {
            fields.push((MAX_AGE, to_decimal(seconds as u64)));
        }
        if self.allow_credentials {
            fields.push((ALLOW_CREDENTIALS, "true".to_owned()));
        }
        proof {
            assert(field_views(fields@) =~= cors_fields(self@));
        }
        fields
    }

    /// Tells whether every text that this policy would set can be sent as a
    /// field value, which `apply_headers` asks for.
    pub fn is_sendable(&self) -> (ok: bool)
        ensures
            ok == policy_sendable(self@),
    {
        let fields = self.header_fields();
        let n = fields.len();
        let mut i: usize = 0;
        while i < n
            invariant
                i <= n,
                n == fields@.len(),
                field_views(fields@) == cors_fields(self@),
                forall|j: int| 0 <= j < i ==> is_field_text((#[trigger] cors_fields(self@)[j]).1),
            decreases n - i,
        {
            assert(field_views(fields@)[i as int].1 == fields@[i as int].1@);
            if !is_sendable_text(fields[i].1.as_str()) {
                return false;
            }
            i += 1;
        }
        true
    }

    /// Sets the fields of this policy in `headers`; a field that `headers`
    /// held under one of their names is replaced.
    pub fn apply_headers(&self, headers: &mut HeaderMap)
        requires
            policy_sendable(self@),
            has_room(
                header_names_held(*old(headers)),
                header_fields(*old(headers)),
                cors_fields(self@),
            ),
        ensures
            header_fields(*final(headers)) == with_fields(
                header_fields(*old(headers)),
                cors_fields(self@),
            ),
            header_names_held(*final(headers)) == header_names_held(*old(headers)) + names_added(
                header_fields(*old(headers)),
                cors_fields(self@),
            ),
    {
        let fields = self.header_fields();
        proof {
            lemma_cors_field_names(self@);
        }
        set_headers(headers, &fields);
    }

    /// Sets the fields of this policy in `headers` and tells whether it did:
    /// where a text cannot be sent, or `headers` has no room for as many
    /// names as the policy has fields, nothing is changed.
    pub fn try_apply_headers(&self, headers: &mut HeaderMap) -> (applied: bool)
        ensures
            applied == (policy_sendable(self@) && header_names_held(*old(headers)) + cors_fields(
                self@,
            ).len() <= HEADER_NAMES_LIMIT),
            applied ==> header_fields(*final(headers)) == with_fields(
                header_fields(*old(headers)),
                cors_fields(self@),
            ),
            !applied ==> *final(headers) == *old(headers),
    {
        let fields = self.header_fields();
        let held = header_names_len(headers);
        proof {
            lemma_cors_field_names(self@);
        }
        if held > HEADER_NAMES_LIMIT - fields.len() || !self.is_sendable() {
            return false;
        }
        proof {
            lemma_room_by_count(held as nat, header_fields(*headers), cors_fields(self@));
        }
        set_headers(headers, &fields);
        true
    }
}

/// Every field that a policy sets has a name as this library writes them,
/// and a policy sets at most six fields.
pub proof fn lemma_cors_field_names(policy: CorsPolicy)
    ensures
        cors_fields(policy).len() <= 6,
        policy_sendable(policy) ==> fields_sendable(cors_fields(policy)),
{
    reveal_strlit("access-control-allow-origin");
    reveal_strlit("access-control-allow-methods");
    reveal_strlit("access-control-allow-headers");
    reveal_strlit("access-control-expose-headers");
    reveal_strlit("access-control-max-age");
    reveal_strlit("access-control-allow-credentials");
    let fields = cors_fields(policy);
    assert forall|i: int| 0 <= i < fields.len() implies crate::headers::is_field_name(
        (#[trigger] fields[i]).0,
    ) by {
        assert(fields[i].0 == ALLOW_ORIGIN@ || fields[i].0 == ALLOW_METHODS@ || fields[i].0
            == ALLOW_HEADERS@ || fields[i].0 == EXPOSE_HEADERS@ || fields[i].0 == MAX_AGE@
            || fields[i].0 == ALLOW_CREDENTIALS@);
    }
}

/// Of several allowed origins only the first is sent: once a policy with
/// an allowed origin is applied, the origin field holds the first one and
/// nothing else, whatever it held before.
pub proof fn lemma_first_origin_only(base: Fields, policy: CorsPolicy)
    requires
        policy.allowed_origins.len() > 0,
    ensures
        with_fields(base, cors_fields(policy)).contains_key(ALLOW_ORIGIN@),
        with_fields(base, cors_fields(policy))[ALLOW_ORIGIN@] == seq![
            encode_utf8(policy.allowed_origins[0]),
        ],
{
    reveal_strlit("access-control-allow-origin");
    reveal_strlit("access-control-allow-methods");
    reveal_strlit("access-control-allow-headers");
    reveal_strlit("access-control-expose-headers");
    reveal_strlit("access-control-max-age");
    reveal_strlit("access-control-allow-credentials");
    let fields = cors_fields(policy);
    assert(fields[0] == (ALLOW_ORIGIN@, policy.allowed_origins[0]));
    assert forall|j: int| 0 < j < fields.len() implies (#[trigger] fields[j]).0
        != fields[0].0 by {
        assert(fields[j].0 == ALLOW_METHODS@ || fields[j].0 == ALLOW_HEADERS@ || fields[j].0
            == EXPOSE_HEADERS@ || fields[j].0 == MAX_AGE@ || fields[j].0 == ALLOW_CREDENTIALS@);
        assert(fields[j].0.len() != ALLOW_ORIGIN@.len());
    }
    lemma_with_fields_last(base, fields, 0);
}

/// A policy without an allowed origin leaves the origin field as it was.
pub proof fn lemma_no_origin_no_field(base: Fields, policy: CorsPolicy)
    requires
        policy.allowed_origins.len() == 0,
    ensures
        with_fields(base, cors_fields(policy)).contains_key(ALLOW_ORIGIN@) == base.contains_key(
            ALLOW_ORIGIN@,
        ),
{
    reveal_strlit("access-control-allow-origin");
    reveal_strlit("access-control-allow-methods");
    reveal_strlit("access-control-allow-headers");
    reveal_strlit("access-control-expose-headers");
    reveal_strlit("access-control-max-age");
    reveal_strlit("access-control-allow-credentials");
    let fields = cors_fields(policy);
    assert forall|j: int| 0 <= j < fields.len() implies (#[trigger] fields[j]).0
        != ALLOW_ORIGIN@ by {
        assert(fields[j].0 == ALLOW_METHODS@ || fields[j].0 == ALLOW_HEADERS@ || fields[j].0
            == EXPOSE_HEADERS@ || fields[j].0 == MAX_AGE@ || fields[j].0 == ALLOW_CREDENTIALS@);
        assert(fields[j].0.len() != ALLOW_ORIGIN@.len());
    }
    lemma_with_fields_others(base, fields, ALLOW_ORIGIN@);
}

/// Applying a policy a second time changes nothing.
pub proof fn lemma_apply_twice_changes_nothing(base: Fields, policy: CorsPolicy)
    ensures
        with_fields(with_fields(base, cors_fields(policy)), cors_fields(policy)) == with_fields(
            base,
            cors_fields(policy),
        ),
        names_added(with_fields(base, cors_fields(policy)), cors_fields(policy)) == 0,
{
    lemma_set_twice_changes_nothing(base, cors_fields(policy));
}

} // verus!
