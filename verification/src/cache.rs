//! The bounded least-recently-used store of release records, and the
//! decision logic that serves a request from the store or admits the
//! outcome of an upstream fetch into it.

use vstd::prelude::*;

use crate::record::{ApiResponse, ApiResponseV, FetchedRelease, Selector, SelectorV};

verus! {

use crate::record::{assembled_view, sel_matches};

/// Fixed capacity of the record store.
pub const CACHE_CAPACITY: usize = 8192;

#[verifier::external_type_specification]
#[verifier::external_body]
#[verifier::reject_recursive_types(T)]
pub struct ExLRUCache<T, const N: usize>(uluru::LRUCache<T, N>);

/// The records an LRU store holds, most recently used first.
pub uninterp spec fn stored_records(c: uluru::LRUCache<ApiResponse, CACHE_CAPACITY>) -> Seq<
    ApiResponseV,
>;

/// Relies on uluru::LRUCache::new: the new store is empty.
#[verifier::external_body]
fn store_new() -> (c: uluru::LRUCache<ApiResponse, CACHE_CAPACITY>)
    ensures
        stored_records(c) == Seq::<ApiResponseV>::empty(),
{
    uluru::LRUCache::new()
}

/// Relies on uluru::LRUCache::insert: the record becomes the front
/// (most-recently-used) entry; when the store is full, the back
/// (least-recently-used) entry is removed and returned.
#[verifier::external_body]
fn store_insert(c: &mut uluru::LRUCache<ApiResponse, CACHE_CAPACITY>, rec: ApiResponse) -> (evicted:
    Option<ApiResponse>)
    ensures
        stored_records(*final(c)) == seq![rec@] + (if stored_records(*old(c)).len()
            < CACHE_CAPACITY {
            stored_records(*old(c))
        } else {
            stored_records(*old(c)).drop_last()
        }),
        (match evicted {
            Some(e) => stored_records(*old(c)).len() >= CACHE_CAPACITY && e@ == stored_records(
                *old(c),
            ).last(),
            None => stored_records(*old(c)).len() < CACHE_CAPACITY,
        }),
{
    c.insert(rec)
}

/// Relies on uluru::LRUCache::len: the number of stored records.
#[verifier::external_body]
fn store_len(c: &uluru::LRUCache<ApiResponse, CACHE_CAPACITY>) -> (n: usize)
    ensures
        n == stored_records(*c).len(),
{
    c.len()
}

/// Index of the first record, scanning from the most recently used, that
/// satisfies the lookup predicate; -1 when none does.
pub open spec fn first_match(
    s: Seq<ApiResponseV>,
    org: Seq<char>,
    repo: Seq<char>,
    sel: SelectorV,
) -> int
    decreases s.len(),
{
    if s.len() == 0 {
        -1
    } else if sel_matches(s[0], org, repo, sel) {
        0
    } else if first_match(s.drop_first(), org, repo, sel) < 0 {
        -1
    } else {
        first_match(s.drop_first(), org, repo, sel) + 1
    }
}

/// The first match lies within the sequence, satisfies the predicate, and
/// nothing nearer the front does; -1 means nothing matches at all.
pub proof fn lemma_first_match(s: Seq<ApiResponseV>, org: Seq<char>, repo: Seq<char>, sel: SelectorV)
    ensures
        -1 <= first_match(s, org, repo, sel) < s.len(),
        first_match(s, org, repo, sel) >= 0 ==> sel_matches(
            s[first_match(s, org, repo, sel)],
            org,
            repo,
            sel,
        ),
        forall|k: int|
            0 <= k < first_match(s, org, repo, sel) ==> !sel_matches(#[trigger] s[k], org, repo, sel),
        first_match(s, org, repo, sel) == -1 ==> forall|k: int|
            0 <= k < s.len() ==> !sel_matches(#[trigger] s[k], org, repo, sel),
    decreases s.len(),
{
    if s.len() > 0 && !sel_matches(s[0], org, repo, sel) {
        let t = s.drop_first();
        lemma_first_match(t, org, repo, sel);
        assert forall|k: int| 1 <= k < s.len() implies s[k] == t[k - 1] by {}
    }
}

/// Relies on uluru::LRUCache::find: scanning from the most recently used
/// entry, the first entry satisfying the predicate is returned and touched
/// (made most-recently-used); without a match the store is unchanged.
#[verifier::external_body]
fn store_find(
    c: &mut uluru::LRUCache<ApiResponse, CACHE_CAPACITY>,
    org: &String,
    repo: &String,
    sel: &Selector,
) -> (r: Option<ApiResponse>)
    ensures
        ({
            let s = stored_records(*old(c));
            let j = first_match(s, org@, repo@, sel@);
            if j < 0 {
                r is None && stored_records(*final(c)) == s
            } else {
                &&& r matches Some(rec) && rec@ == s[j]
                &&& stored_records(*final(c)) == seq![s[j]] + s.subrange(0, j) + s.subrange(
                    j + 1,
                    s.len() as int,
                )
            }
        }),
{
    c.find(|e: &ApiResponse| e.selected_by(org, repo, sel)).cloned()
}

/// The store after a record is inserted at the front, evicting the least
/// recently used record when the store is at capacity.
pub open spec fn inserted(s: Seq<ApiResponseV>, rec: ApiResponseV) -> Seq<ApiResponseV> {
    seq![rec] + (if s.len() < CACHE_CAPACITY {
        s
    } else {
        s.drop_last()
    })
}

/// Law: a lookup right after an insertion hits.  Whenever the inserted
/// record satisfies the selector, the record stands at the front of the new
/// store, so a lookup under that selector returns exactly that record.
pub proof fn lemma_lookup_after_insert(
    s: Seq<ApiResponseV>,
    rec: ApiResponseV,
    org: Seq<char>,
    repo: Seq<char>,
    sel: SelectorV,
)
    requires
        sel_matches(rec, org, repo, sel),
    ensures
        first_match(inserted(s, rec), org, repo, sel) == 0,
        inserted(s, rec)[0] == rec,
{
    assert(inserted(s, rec)[0] == rec);
}

/// Law: a record assembled from a fetch satisfies the selector its request
/// used, provided a specific-tag request was answered with a release
/// carrying that tag.
pub proof fn lemma_assembled_matches(
    org: Seq<char>,
    repo: Seq<char>,
    sel: SelectorV,
    f: FetchedRelease,
)
    requires
        sel matches SelectorV::Specific(t) ==> f.tag_name@ == t,
    ensures
        sel_matches(assembled_view(org, repo, sel, f), org, repo, sel),
{
}

/// Law: the cache never outgrows its fixed capacity, and an insertion at
/// capacity evicts exactly the least recently used record while every other
/// record survives in order.
pub proof fn lemma_capacity(s: Seq<ApiResponseV>, rec: ApiResponseV)
    requires
        s.len() <= CACHE_CAPACITY,
    ensures
        inserted(s, rec).len() <= CACHE_CAPACITY,
        s.len() < CACHE_CAPACITY ==> inserted(s, rec) == seq![rec] + s,
        s.len() == CACHE_CAPACITY ==> inserted(s, rec) == seq![rec] + s.drop_last(),
{
}

/// Law: a record carrying `latest == false` never satisfies a `Latest`
/// lookup, whatever its tag, and even when that tag is in fact the most
/// recent one upstream.
pub proof fn lemma_latest_needs_flag(rec: ApiResponseV, org: Seq<char>, repo: Seq<char>)
    requires
        !rec.latest,
    ensures
        !sel_matches(rec, org, repo, SelectorV::Latest),
{
}

/// The bounded least-recently-used cache of release records.  Its
/// mathematical value is the sequence of stored records, most recently used
/// first; it never holds more than `CACHE_CAPACITY` records.
#[derive(Debug)]
pub struct Cache {
    store: uluru::LRUCache<ApiResponse, CACHE_CAPACITY>,
}

impl View for Cache {
    type V = Seq<ApiResponseV>;

    closed spec fn view(&self) -> Seq<ApiResponseV> {
        stored_records(self.store)
    }
}

/// Why an upstream fetch failed.
#[derive(Debug)]
pub enum UpstreamError {
    /// The requested tag or repository has no matching release upstream.
    NotFound,
    /// Network or API failure.
    Transport,
}

/// The status reported for a force-refresh request.
#[derive(Debug, PartialEq, Eq, Structural)]
pub enum RefreshStatus {
    /// A fresh record was fetched and stored.
    Refreshed,
    /// The requested tag does not exist upstream; nothing was stored.
    NotFound,
    /// The fetch failed for any other reason; nothing was stored.
    Internal,
}

impl Cache {
    /// An empty cache.
    pub fn new() -> (c: Cache)
        ensures
            c@ == Seq::<ApiResponseV>::empty(),
    {
        Cache { store: store_new() }
    }

    /// The number of records currently stored.
    pub fn len(&self) -> (n: usize)
        ensures
            n == self@.len(),
    {
        store_len(&self.store)
    }

    /// The most recently used record satisfying the selector, or `None` on a
    /// miss.  A hit touches the record: it moves to the front of the
    /// eviction order; a miss leaves the cache unchanged.
    pub fn lookup(&mut self, org: &String, repo: &String, sel: &Selector) -> (r: Option<
        ApiResponse,
    >)
        ensures
            ({
                let s = old(self)@;
                let j = first_match(s, org@, repo@, sel@);
                &&& j < 0 ==> r is None && final(self)@ == s
                &&& j >= 0 ==> (r matches Some(rec) && rec@ == s[j]) && final(self)@ == seq![s[j]]
                    + s.subrange(0, j) + s.subrange(j + 1, s.len() as int)
            }),
            (r matches Some(rec) ==> sel_matches(rec@, org@, repo@, sel@)),
            r is None <==> forall|k: int|
                0 <= k < old(self)@.len() ==> !sel_matches(#[trigger] old(self)@[k], org@, repo@, sel@),
            final(self)@.len() == old(self)@.len(),
    {
        proof {
            lemma_first_match(stored_records(self.store), org@, repo@, sel@);
        }
        let r = store_find(&mut self.store, org, repo, sel);
        proof {
            let s = old(self)@;
            let j = first_match(s, org@, repo@, sel@);
            if j >= 0 {
                assert(sel_matches(s[j], org@, repo@, sel@));
                assert(!(r is None));
            } else {
                assert(j == -1);
            }
        }
        r
    }

    /// Stores a record, marking it most-recently-used; at capacity the
    /// least-recently-used record is evicted first.  No deduplication is
    /// performed against existing equivalent records.
    pub fn insert(&mut self, rec: ApiResponse)
        ensures
            final(self)@ == inserted(old(self)@, rec@),
            old(self)@.len() <= CACHE_CAPACITY ==> final(self)@.len() <= CACHE_CAPACITY,
    {
        let _ = store_insert(&mut self.store, rec);
    }

    /// Completes a read-path cache miss: on a successful fetch the record is
    /// assembled, stored and returned; on any upstream failure the cache is
    /// left untouched and the failure is reported as not-found.
    pub fn resolve_miss(
        &mut self,
        org: String,
        repo: String,
        sel: &Selector,
        fetched: Result<FetchedRelease, UpstreamError>,
    ) -> (r: Option<ApiResponse>)
        ensures
            (match fetched {
                Ok(f) => (r matches Some(rec) && rec@ == assembled_view(org@, repo@, sel@, f))
                    && final(self)@ == inserted(old(self)@, assembled_view(org@, repo@, sel@, f)),
                Err(_) => r is None && final(self)@ == old(self)@,
            }),
    {
        match fetched {
            Ok(f) => {
                let rec = ApiResponse::assemble(org, repo, sel, f);
                let out = rec.clone();
                self.insert(rec);
                Some(out)
            },
            Err(_) => None,
        }
    }

    /// Bypasses lookup after the caller has fetched unconditionally: a
    /// successful fetch is assembled and stored (no pre-existing stale match
    /// is removed), a missing tag reports not-found, and any other upstream
    /// failure reports an internal error; in both failure cases every
    /// previously cached record is left untouched.
    pub fn force_refresh(
        &mut self,
        org: String,
        repo: String,
        sel: &Selector,
        fetched: Result<FetchedRelease, UpstreamError>,
    ) -> (st: RefreshStatus)
        ensures
            (match fetched {
                Ok(f) => st == RefreshStatus::Refreshed && final(self)@ == inserted(
                    old(self)@,
                    assembled_view(org@, repo@, sel@, f),
                ),
                Err(UpstreamError::NotFound) => st == RefreshStatus::NotFound && final(self)@
                    == old(self)@,
                Err(UpstreamError::Transport) => st == RefreshStatus::Internal && final(self)@
                    == old(self)@,
            }),
    {
        match fetched {
            Ok(f) => {
                let rec = ApiResponse::assemble(org, repo, sel, f);
                self.insert(rec);
                RefreshStatus::Refreshed
            },
            Err(UpstreamError::NotFound) => RefreshStatus::NotFound,
            Err(UpstreamError::Transport) => RefreshStatus::Internal,
        }
    }
}

} // verus!
