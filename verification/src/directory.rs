//! The directory of virtual names: which bucket each one stands for and
//! which CORS policy it has, kept as one snapshot that is replaced whole.

use crate::config::text_of;
use crate::cors::CorsConfig;
use crate::cors::CorsPolicy;
use crate::errors::ProxyError;
use crate::text::lemma_trimmed_twice;
use crate::text::trim;
use crate::text::trimmed;
use vstd::hash_map::StringHashMap;
use vstd::prelude::*;

verus! {

/// Key under which the key-value store holds the whitelist.
pub const WHITELIST_KEY: &'static str = "whitelist";

/// Key under which the key-value store holds the CORS policies.
pub const CORS_KEY: &'static str = "cors";

/// Seconds between two refreshes of the directory.
pub const REFRESH_INTERVAL_SECS: u64 = 600;

/// What `serde_json::from_str` makes of `text` when asked for a list of
/// pairs of strings: the pairs, or `None` where it reports an error.
pub uninterp spec fn whitelist_document(text: Seq<char>) -> Option<Seq<(Seq<char>, Seq<char>)>>;

/// The views of a list of pairs of strings.
pub open spec fn pair_views(pairs: Seq<(String, String)>) -> Seq<(Seq<char>, Seq<char>)> {
    Seq::new(pairs.len(), |i: int| (pairs[i].0@, pairs[i].1@))
}

/// The views of a list of named policies.
pub open spec fn policy_views(entries: Seq<(String, CorsConfig)>) -> Seq<(Seq<char>, CorsPolicy)> {
    Seq::new(entries.len(), |i: int| (entries[i].0@, entries[i].1@))
}

/// `serde_json::from_str` for a list of pairs of strings. It reads the whole
/// of `text` as one JSON document and depends on nothing else.
#[verifier::external_body]
fn parse_whitelist(text: &str) -> (out: Option<Vec<(String, String)>>)
    ensures
        match out {
            Some(pairs) => whitelist_document(text@) == Some(pair_views(pairs@)),
            None => whitelist_document(text@) is None,
        },
{
    serde_json::from_str::<Vec<(String, String)>>(text).ok()
}

/// Whether `text` can stand in the whitelist: it is not empty and has no
/// white space at either end.
pub open spec fn is_stored_text(text: Seq<char>) -> bool {
    text.len() > 0 && trimmed(text) == text
}

/// Whether a pair of the whitelist payload is kept: neither its name nor its
/// bucket is empty once trimmed.
pub open spec fn is_kept(pair: (Seq<char>, Seq<char>)) -> bool {
    trimmed(pair.0).len() > 0 && trimmed(pair.1).len() > 0
}

/// The whitelist that a list of pairs gives: each kept pair, trimmed, in
/// order, a later pair replacing an earlier one of the same name.
pub open spec fn whitelist_of(pairs: Seq<(Seq<char>, Seq<char>)>) -> Map<Seq<char>, Seq<char>>
    decreases pairs.len(),
{
    if pairs.len() == 0 {
        Map::empty()
    } else if is_kept(pairs.last()) {
        whitelist_of(pairs.drop_last()).insert(trimmed(pairs.last().0), trimmed(pairs.last().1))
    } else {
        whitelist_of(pairs.drop_last())
    }
}

/// The policies that a list of named policies gives: each one under its
/// name as written, a later one replacing an earlier one of the same name.
pub open spec fn cors_of(entries: Seq<(Seq<char>, CorsPolicy)>) -> Map<Seq<char>, CorsPolicy>
    decreases entries.len(),
{
    if entries.len() == 0 {
        Map::empty()
    } else {
        cors_of(entries.drop_last()).insert(entries.last().0, entries.last().1)
    }
}

/// Whether every name and every bucket of `whitelist` can stand there.
pub open spec fn whitelist_wf(whitelist: Map<Seq<char>, Seq<char>>) -> bool {
    forall|name: Seq<char>| #[trigger]
        whitelist.contains_key(name) ==> is_stored_text(name) && is_stored_text(whitelist[name])
}

/// The pairs of a whitelist payload: those of the document where it is
/// there and well formed, none otherwise.
pub open spec fn whitelist_entries_of(payload: Option<Seq<char>>) -> Seq<(Seq<char>, Seq<char>)> {
    match payload {
        Some(text) => match whitelist_document(text) {
            Some(pairs) => pairs,
            None => Seq::empty(),
        },
        None => Seq::empty(),
    }
}

/// The named policies of a CORS payload as it was read: none where it was
/// missing or malformed.
pub open spec fn cors_entries_of(payload: Option<Vec<(String, CorsConfig)>>) -> Seq<
    (Seq<char>, CorsPolicy),
> {
    match payload {
        Some(entries) => policy_views(entries@),
        None => Seq::empty(),
    }
}

/// The pairs of a whitelist as it was read: none where it was missing or
/// malformed.
pub open spec fn pairs_of(payload: Option<Vec<(String, String)>>) -> Seq<(Seq<char>, Seq<char>)> {
    match payload {
        Some(pairs) => pair_views(pairs@),
        None => Seq::empty(),
    }
}

/// The whitelist that a list of pairs gives holds only names and buckets
/// that can stand there.
pub proof fn lemma_whitelist_of_wf(pairs: Seq<(Seq<char>, Seq<char>)>)
    ensures
        whitelist_wf(whitelist_of(pairs)),
    decreases pairs.len(),
{
    if pairs.len() > 0 {
        lemma_whitelist_of_wf(pairs.drop_last());
        lemma_trimmed_twice(pairs.last().0);
        lemma_trimmed_twice(pairs.last().1);
    }
}

/// Whether a pair of the whitelist payload is kept under `name`.
pub open spec fn names(pair: (Seq<char>, Seq<char>), name: Seq<char>) -> bool {
    is_kept(pair) && trimmed(pair.0) == name
}

/// A name is in the whitelist that a list of pairs gives exactly if one of
/// the pairs is kept under it.
pub proof fn lemma_whitelist_of_contains(pairs: Seq<(Seq<char>, Seq<char>)>, name: Seq<char>)
    ensures
        whitelist_of(pairs).contains_key(name) <==> exists|i: int|
            0 <= i < pairs.len() && #[trigger] names(pairs[i], name),
    decreases pairs.len(),
{
    if pairs.len() > 0 {
        let front = pairs.drop_last();
        let last = pairs.len() - 1;
        lemma_whitelist_of_contains(front, name);
        if names(pairs[last], name) {
        } else if whitelist_of(pairs).contains_key(name) {
            let i = choose|i: int| 0 <= i < front.len() && #[trigger] names(front[i], name);
            assert(names(pairs[i], name));
        } else if exists|i: int| 0 <= i < pairs.len() && #[trigger] names(pairs[i], name) {
            let i = choose|i: int| 0 <= i < pairs.len() && #[trigger] names(pairs[i], name);
            assert(names(front[i], name));
        }
    }
}

/// The bucket of a name in the whitelist that a list of pairs gives is the
/// trimmed bucket of the last pair kept under it.
pub proof fn lemma_whitelist_of_last(pairs: Seq<(Seq<char>, Seq<char>)>, name: Seq<char>, i: int)
    requires
        0 <= i < pairs.len(),
        names(pairs[i], name),
        forall|j: int| i < j < pairs.len() ==> !#[trigger] names(pairs[j], name),
    ensures
        whitelist_of(pairs).contains_key(name),
        whitelist_of(pairs)[name] == trimmed(pairs[i].1),
    decreases pairs.len(),
{
    let front = pairs.drop_last();
    let last = pairs.len() - 1;
    if i < last {
        assert(!names(pairs[last], name));
        assert(front[i] == pairs[i]);
        assert forall|j: int| i < j < front.len() implies !#[trigger] names(front[j], name) by {
            assert(front[j] == pairs[j]);
        }
        lemma_whitelist_of_last(front, name, i);
    }
}

/// A directory as plain values.
pub struct DirectoryView {
    pub whitelist: Map<Seq<char>, Seq<char>>,
    pub cors: Map<Seq<char>, CorsPolicy>,
}

/// The directory that the payloads of one refresh make.
pub open spec fn directory_of(
    payload: Option<String>,
    entries: Option<Vec<(String, CorsConfig)>>,
) -> DirectoryView {
    DirectoryView {
        whitelist: whitelist_of(whitelist_entries_of(text_of(payload))),
        cors: cors_of(cors_entries_of(entries)),
    }
}

/// The directory held after a refresh cycle that found `before`: the one
/// that the two payloads make where both fetches reached the store, and
/// `before` itself where one of them did not.
pub open spec fn after_refresh(
    before: DirectoryView,
    whitelist: Result<Option<String>, ProxyError>,
    cors: Result<Option<Vec<(String, CorsConfig)>>, ProxyError>,
) -> DirectoryView {
    match (whitelist, cors) {
        (Ok(payload), Ok(entries)) => directory_of(payload, entries),
        _ => before,
    }
}

/// What a refresh cycle reports: the failure of the fetch that did not
/// reach the store, that of the whitelist first.
pub open spec fn refresh_outcome(
    whitelist: Result<Option<String>, ProxyError>,
    cors: Result<Option<Vec<(String, CorsConfig)>>, ProxyError>,
) -> Result<(), ProxyError> {
    match (whitelist, cors) {
        (Err(e), _) => Err(e),
        (Ok(_), Err(e)) => Err(e),
        (Ok(_), Ok(_)) => Ok(()),
    }
}

/// The bucket that `name` stands for in `whitelist`, if any.
pub open spec fn bucket_of(whitelist: Map<Seq<char>, Seq<char>>, name: Seq<char>) -> Option<
    Seq<char>,
> {
    if whitelist.contains_key(name) {
        Some(whitelist[name])
    } else {
        None
    }
}

/// The policy of `name` in `cors`, if any.
pub open spec fn policy_of(cors: Map<Seq<char>, CorsPolicy>, name: Seq<char>) -> Option<
    CorsPolicy,
> {
    if cors.contains_key(name) {
        Some(cors[name])
    } else {
        None
    }
}

/// The view of an optional policy.
pub open spec fn policy_view(policy: Option<CorsConfig>) -> Option<CorsPolicy> {
    match policy {
        Some(config) => Some(config@),
        None => None,
    }
}

/// The whitelist and the CORS policies of one refresh, never changed once
/// built.
pub struct DirectorySnapshot {
    whitelist: StringHashMap<String>,
    cors: StringHashMap<CorsConfig>,
}

impl View for DirectorySnapshot {
    type V = DirectoryView;

    closed spec fn view(&self) -> DirectoryView {
        DirectoryView {
            whitelist: self.whitelist@.map_values(|bucket: String| bucket@),
            cors: self.cors@.map_values(|config: CorsConfig| config@),
        }
    }
}

impl DirectorySnapshot {
    #[verifier::type_invariant]
    spec fn well_formed(&self) -> bool {
        whitelist_wf(self.whitelist@.map_values(|bucket: String| bucket@))
    }

    /// A directory without entries.
    pub fn empty() -> (out: Self)
        ensures
            out@.whitelist == Map::<Seq<char>, Seq<char>>::empty(),
            out@.cors == Map::<Seq<char>, CorsPolicy>::empty(),
    {
        let whitelist = StringHashMap::<String>::new();
        let cors = StringHashMap::<CorsConfig>::new();
        proof {
            assert(whitelist@.map_values(|bucket: String| bucket@) =~= Map::<
                Seq<char>,
                Seq<char>,
            >::empty());
            assert(cors@.map_values(|config: CorsConfig| config@) =~= Map::<
                Seq<char>,
                CorsPolicy,
            >::empty());
        }
        DirectorySnapshot { whitelist, cors }
    }

    /// The directory that the given entries make: the pairs of the whitelist
    /// trimmed, those dropped whose name or bucket is then empty; the
    /// policies under their names as written.
    pub fn from_entries(whitelist: &Vec<(String, String)>, cors: &Vec<(String, CorsConfig)>) -> (out:
        Self)
        ensures
            out@.whitelist == whitelist_of(pair_views(whitelist@)),
            out@.cors == cors_of(policy_views(cors@)),
            whitelist_wf(out@.whitelist),
    {
        let mut names = StringHashMap::<String>::new();
        let n = whitelist.len();
        let mut i: usize = 0;
        assert(names@.map_values(|bucket: String| bucket@) =~= whitelist_of(
            pair_views(whitelist@).take(0),
        ));
        while i < n
            invariant
                i <= n,
                n == whitelist@.len(),
                names@.map_values(|bucket: String| bucket@) == whitelist_of(
                    pair_views(whitelist@).take(i as int),
                ),
            decreases n - i,
        {
            let name = trim(whitelist[i].0.as_str());
            let bucket = trim(whitelist[i].1.as_str());
            proof {
                let all = pair_views(whitelist@);
                assert(all.take(i + 1).drop_last() =~= all.take(i as int));
                assert(all.take(i + 1).last() == all[i as int]);
            }
            let ghost before = names@;
            if !name.as_str().is_empty() && !bucket.as_str().is_empty() {
                names.insert(name, bucket);
                assert(names@.map_values(|bucket: String| bucket@) =~= before.map_values(
                    |bucket: String| bucket@,
                ).insert(name@, bucket@));
            }
            i += 1;
        }
        let mut policies = StringHashMap::<CorsConfig>::new();
        let m = cors.len();
        let mut k: usize = 0;
        assert(policies@.map_values(|config: CorsConfig| config@) =~= cors_of(
            policy_views(cors@).take(0),
        ));
        while k < m
            invariant
                k <= m,
                m == cors@.len(),
                policies@.map_values(|config: CorsConfig| config@) == cors_of(
                    policy_views(cors@).take(k as int),
                ),
            decreases m - k,
        {
            let name = cors[k].0.clone();
            let config = cors[k].1.clone();
            proof {
                let all = policy_views(cors@);
                assert(all.take(k + 1).drop_last() =~= all.take(k as int));
                assert(all.take(k + 1).last() == all[k as int]);
            }
            let ghost before = policies@;
            policies.insert(name, config);
            assert(policies@.map_values(|config: CorsConfig| config@) =~= before.map_values(
                |config: CorsConfig| config@,
            ).insert(name@, config@));
            k += 1;
        }
        proof {
            assert(pair_views(whitelist@).take(n as int) =~= pair_views(whitelist@));
            assert(policy_views(cors@).take(m as int) =~= policy_views(cors@));
            lemma_whitelist_of_wf(pair_views(whitelist@));
        }
        DirectorySnapshot { whitelist: names, cors: policies }
    }

    /// The directory that two payloads make as they were read, a missing or
    /// malformed one counting as one without entries.
    pub fn from_parsed(
        whitelist: Option<Vec<(String, String)>>,
        cors: Option<Vec<(String, CorsConfig)>>,
    ) -> (out: Self)
        ensures
            out@.whitelist == whitelist_of(pairs_of(whitelist)),
            out@.cors == cors_of(cors_entries_of(cors)),
            whitelist_wf(out@.whitelist),
    {
        let pairs = match whitelist {
            Some(pairs) => pairs,
            None => Vec::new(),
        };
        let entries = match cors {
            Some(entries) => entries,
            None => Vec::new(),
        };
        proof {
            assert(pair_views(pairs@) =~= pairs_of(whitelist));
            assert(policy_views(entries@) =~= cors_entries_of(cors));
        }
        DirectorySnapshot::from_entries(&pairs, &entries)
    }

    /// The bucket that `name` stands for, if it is in the whitelist.
    pub fn lookup_bucket(&self, name: &str) -> (out: Option<String>)
        ensures
            text_of(out) == bucket_of(self@.whitelist, name@),
            out matches Some(bucket) ==> is_stored_text(name@) && is_stored_text(bucket@),
    {
        proof {
            use_type_invariant(self);
        }
        match self.whitelist.get(name) {
            Some(bucket) => Some(bucket.clone()),
            None => None,
        }
    }

    /// The CORS policy of `name`, if it has one.
    pub fn lookup_cors(&self, name: &str) -> (out: Option<CorsConfig>)
        ensures
            policy_view(out) == policy_of(self@.cors, name@),
    {
        match self.cors.get(name) {
            Some(config) => Some(config.clone()),
            None => None,
        }
    }

    /// The number of names in the whitelist.
    pub fn whitelist_len(&self) -> (out: usize)
        ensures
            out == self@.whitelist.len(),
    {
        proof {
            assert(self.whitelist@.map_values(|bucket: String| bucket@).dom() =~= self.whitelist@.dom());
        }
        self.whitelist.len()
    }

    /// The number of names that have a CORS policy.
    pub fn cors_len(&self) -> (out: usize)
        ensures
            out == self@.cors.len(),
    {
        proof {
            assert(self.cors@.map_values(|config: CorsConfig| config@).dom() =~= self.cors@.dom());
        }
        self.cors.len()
    }
}

/// The directory that requests are answered from: one snapshot at a time.
pub struct DirectoryCache {
    current: DirectorySnapshot,
}

impl View for DirectoryCache {
    type V = DirectoryView;

    closed spec fn view(&self) -> DirectoryView {
        self.current@
    }
}

impl DirectoryCache {
    /// A cache that holds a directory without entries.
    pub fn new() -> (out: Self)
        ensures
            out@.whitelist == Map::<Seq<char>, Seq<char>>::empty(),
            out@.cors == Map::<Seq<char>, CorsPolicy>::empty(),
    {
        DirectoryCache { current: DirectorySnapshot::empty() }
    }

    /// The snapshot that the cache holds.
    pub fn snapshot(&self) -> (out: &DirectorySnapshot)
        ensures
            out@ == self@,
    {
        &self.current
    }

    /// Puts `snapshot` in the place of the one held: whitelist and policies
    /// change together.
    pub fn replace(&mut self, snapshot: DirectorySnapshot)
        ensures
            final(self)@ == snapshot@,
    {
        self.current = snapshot;
    }

    /// The bucket that `name` stands for in the snapshot held.
    pub fn lookup_bucket(&self, name: &str) -> (out: Option<String>)
        ensures
            text_of(out) == bucket_of(self@.whitelist, name@),
            out matches Some(bucket) ==> is_stored_text(name@) && is_stored_text(bucket@),
    {
        self.current.lookup_bucket(name)
    }

    /// The CORS policy of `name` in the snapshot held.
    pub fn lookup_cors(&self, name: &str) -> (out: Option<CorsConfig>)
        ensures
            policy_view(out) == policy_of(self@.cors, name@),
    {
        self.current.lookup_cors(name)
    }

    /// Ends one refresh cycle. `whitelist` and `cors` are what the two
    /// fetches gave: a failure to reach the store, nothing, the text of the
    /// whitelist, the policies as read. Where a fetch failed the cycle is
    /// skipped: the snapshot held stays and the failure is returned, that of
    /// the whitelist first. Otherwise a new snapshot takes its place, a
    /// missing or malformed payload counting as one without entries.
    pub fn refresh(
        &mut self,
        whitelist: Result<Option<String>, ProxyError>,
        cors: Result<Option<Vec<(String, CorsConfig)>>, ProxyError>,
    ) -> (out: Result<(), ProxyError>)
        ensures
            out == refresh_outcome(whitelist, cors),
            final(self)@.whitelist == after_refresh(old(self)@, whitelist, cors).whitelist,
            final(self)@.cors == after_refresh(old(self)@, whitelist, cors).cors,
    {
        let payload = match whitelist {
            Ok(payload) => payload,
            Err(e) => {
                return Err(e);
            },
        };
        let entries = match cors {
            Ok(entries) => entries,
            Err(e) => {
                return Err(e);
            },
        };
        let pairs = match payload {
            Some(text) => parse_whitelist(text.as_str()),
            None => None,
        };
        let snapshot = DirectorySnapshot::from_parsed(pairs, entries);
        self.replace(snapshot);
        Ok(())
    }
}

/// A whitelist payload that is no well-formed document leaves no name
/// allowed, whatever was allowed before.
pub proof fn lemma_malformed_whitelist_is_empty(text: Seq<char>)
    requires
        whitelist_document(text) is None,
    ensures
        whitelist_of(whitelist_entries_of(Some(text))) == Map::<Seq<char>, Seq<char>>::empty(),
        forall|name: Seq<char>|
            bucket_of(whitelist_of(whitelist_entries_of(Some(text))), name) is None,
{
}

/// Looking a name up in the directory that a list of pairs gives finds a
/// bucket exactly if one of the pairs is kept under the name, and the bucket
/// found is the trimmed bucket of such a pair.
pub proof fn lemma_lookup_after_install(pairs: Seq<(Seq<char>, Seq<char>)>, name: Seq<char>)
    ensures
        bucket_of(whitelist_of(pairs), name) is Some <==> exists|i: int|
            0 <= i < pairs.len() && #[trigger] names(pairs[i], name),
        bucket_of(whitelist_of(pairs), name) matches Some(bucket) ==> exists|i: int|
            0 <= i < pairs.len() && #[trigger] names(pairs[i], name) && trimmed(pairs[i].1)
                == bucket,
    decreases pairs.len(),
{
    lemma_whitelist_of_contains(pairs, name);
    if pairs.len() > 0 && whitelist_of(pairs).contains_key(name) {
        let front = pairs.drop_last();
        let last = pairs.len() - 1;
        let bucket = whitelist_of(pairs)[name];
        if names(pairs[last], name) {
            assert(trimmed(pairs[last].1) == bucket);
        } else {
            lemma_lookup_after_install(front, name);
            let i = choose|i: int|
                0 <= i < front.len() && #[trigger] names(front[i], name) && trimmed(front[i].1)
                    == bucket;
            assert(names(pairs[i], name) && trimmed(pairs[i].1) == bucket);
        }
    }
}

/// A refresh cycle changes the whitelist and the policies together or not
/// at all: what is held after it is the snapshot held before or the new one,
/// never the whitelist of one with the policies of the other.
pub proof fn lemma_refresh_all_or_nothing(
    before: DirectoryView,
    whitelist: Result<Option<String>, ProxyError>,
    cors: Result<Option<Vec<(String, CorsConfig)>>, ProxyError>,
)
    ensures
        after_refresh(before, whitelist, cors) == before || (whitelist is Ok && cors is Ok
            && after_refresh(before, whitelist, cors) == directory_of(whitelist->Ok_0, cors->Ok_0)),
        refresh_outcome(whitelist, cors) is Err ==> after_refresh(before, whitelist, cors)
            == before,
{
}

/// Whatever was held before, a refresh cycle that fetched a whitelist
/// payload which is no well-formed document leaves no name allowed.
pub proof fn lemma_refresh_with_malformed_whitelist(
    before: DirectoryView,
    text: String,
    cors: Option<Vec<(String, CorsConfig)>>,
    name: Seq<char>,
)
    requires
        whitelist_document(text@) is None,
    ensures
        bucket_of(after_refresh(before, Ok(Some(text)), Ok(cors)).whitelist, name) is None,
{
}

} // verus!
