//! The cache of fetched key sets, by issuer. Times are milliseconds on a
//! clock that the caller keeps.

use vstd::prelude::*;
use jsonwebtoken_aws_lc::jwk::JwkSet;

verus! {

/// A cached key set: when it was fetched and how long it stays usable.
pub struct CachedJwks {
    pub jwks: JwkSet,
    pub fetched_at_ms: u64,
    pub ttl_ms: u64,
}

/// One issuer's cached key set.
struct Entry {
    issuer: String,
    cached: CachedJwks,
}

/// The cached key sets of `s` by issuer; a later entry for the same issuer
/// wins.
spec fn map_of(s: Seq<Entry>) -> Map<Seq<char>, CachedJwks>
    decreases s.len(),
{
    if s.len() == 0 {
        Map::empty()
    } else {
        map_of(s.drop_last()).insert(s.last().issuer@, s.last().cached)
    }
}

/// Whether a cached key set of age `age_ms` (none when nothing is cached)
/// may be used: only while it is younger than its time to live.
pub fn use_cached_jwks(age_ms: Option<u64>, ttl_ms: u64) -> (b: bool)
    ensures
        b == (age_ms matches Some(a) && a < ttl_ms),
{
    match age_ms {
        Some(a) => a < ttl_ms,
        None => false,
    }
}

/// The age at `now_ms` of a key set fetched at `fetched_at_ms` (0 when the
/// clock reads earlier than the fetch).
pub open spec fn age_at(fetched_at_ms: u64, now_ms: u64) -> u64 {
    if now_ms >= fetched_at_ms { (now_ms - fetched_at_ms) as u64 } else { 0 }
}

/// The cached key set for `issuer` that may be used at `now_ms`.
pub open spec fn usable(cache: Map<Seq<char>, CachedJwks>, issuer: Seq<char>, now_ms: u64) -> Option<JwkSet> {
    if cache.contains_key(issuer) && age_at(cache[issuer].fetched_at_ms, now_ms) < cache[issuer].ttl_ms {
        Some(cache[issuer].jwks)
    } else {
        None
    }
}

/// Calls the derived `Clone` of `JwkSet`, which copies every key.
#[verifier::external_body]
fn clone_jwk_set(s: &JwkSet) -> (r: JwkSet)
    ensures
        r == *s,
{
    s.clone()
}

/// The key sets fetched so far, by issuer.
pub struct JwksCache {
    entries: Vec<Entry>,
}

impl View for JwksCache {
    type V = Map<Seq<char>, CachedJwks>;

    closed spec fn view(&self) -> Map<Seq<char>, CachedJwks> {
        map_of(self.entries@)
    }
}

impl JwksCache {
    /// An empty cache.
    pub fn new() -> (c: JwksCache)
        ensures
            c@ == Map::<Seq<char>, CachedJwks>::empty(),
    {
        JwksCache { entries: Vec::new() }
    }

    /// The position of the last entry for `issuer`, if any.
    fn find(&self, issuer: &str) -> (r: Option<usize>)
        ensures
            match r {
                Some(i) => {
                    &&& i < self.entries@.len()
                    &&& self.entries@[i as int].issuer@ == issuer@
                    &&& forall|j: int| i < j < self.entries@.len() ==> (#[trigger] self.entries@[j]).issuer@ != issuer@
                },
                None => forall|j: int| 0 <= j < self.entries@.len() ==> (#[trigger] self.entries@[j]).issuer@ != issuer@,
            },
    {
        let key = String::from_str(issuer);
        let mut i: usize = self.entries.len();
        while i > 0
            invariant
                i <= self.entries@.len(),
                key@ == issuer@,
                forall|j: int| i <= j < self.entries@.len() ==> (#[trigger] self.entries@[j]).issuer@ != issuer@,
            decreases i,
        {
            i -= 1;
            if self.entries[i].issuer == key {
                return Some(i);
            }
        }
        None
    }

    /// The key set cached for `issuer`, when it may still be used at
    /// `now_ms`.
    pub fn lookup(&self, issuer: &str, now_ms: u64) -> (r: Option<JwkSet>)
        ensures
            r == usable(self@, issuer@, now_ms),
    {
        match self.find(issuer) {
            Some(i) => {
                let c = &self.entries[i].cached;
                proof {
                    lemma_last_entry_wins(self.entries@, issuer@, i as int);
                }
                let age = if now_ms >= c.fetched_at_ms { now_ms - c.fetched_at_ms } else { 0 };
                if use_cached_jwks(Some(age), c.ttl_ms) {
                    Some(clone_jwk_set(&c.jwks))
                } else {
                    None
                }
            },
            None => {
                proof {
                    lemma_absent(self.entries@, issuer@);
                }
                None
            },
        }
    }

    /// Records the key set fetched for `issuer` at `fetched_at_ms`, usable
    /// for `ttl_ms`; it replaces what was cached for that issuer.
    pub fn store(&mut self, issuer: &str, jwks: JwkSet, fetched_at_ms: u64, ttl_ms: u64)
        ensures
            final(self)@ == old(self)@.insert(issuer@, CachedJwks { jwks, fetched_at_ms, ttl_ms }),
    {
        let e = Entry { issuer: String::from_str(issuer), cached: CachedJwks { jwks, fetched_at_ms, ttl_ms } };
        let ghost ev = e;
        match self.find(issuer) {
            Some(i) => {
                let ghost s = self.entries@;
                self.entries.set(i, e);
                proof {
                    lemma_replace_last_entry(s, issuer@, i as int, ev);
                }
            },
            None => {
                let ghost s = self.entries@;
                self.entries.push(e);
                proof {
                    assert(self.entries@.drop_last() =~= s);
                }
            },
        }
    }
}

/// A key set stored for an issuer is what a lookup of that issuer gives
/// back while it is younger than its time to live, and nothing after; the
/// other issuers' sets are not touched.
pub proof fn law_lookup_after_store(
    cache: Map<Seq<char>, CachedJwks>,
    issuer: Seq<char>,
    other: Seq<char>,
    jwks: JwkSet,
    fetched_at_ms: u64,
    ttl_ms: u64,
    now_ms: u64,
)
    ensures
        usable(cache.insert(issuer, CachedJwks { jwks, fetched_at_ms, ttl_ms }), issuer, now_ms)
            == if age_at(fetched_at_ms, now_ms) < ttl_ms { Some(jwks) } else { None },
        other != issuer ==> usable(cache.insert(issuer, CachedJwks { jwks, fetched_at_ms, ttl_ms }), other, now_ms)
            == usable(cache, other, now_ms),
{
}

/// The last entry for `k` gives the cached key set of `k`.
proof fn lemma_last_entry_wins(s: Seq<Entry>, k: Seq<char>, i: int)
    requires
        0 <= i < s.len(),
        s[i].issuer@ == k,
        forall|j: int| i < j < s.len() ==> (#[trigger] s[j]).issuer@ != k,
    ensures
        map_of(s).contains_key(k),
        map_of(s)[k] == s[i].cached,
    decreases s.len(),
{
    if i < s.len() - 1 {
        assert(s.last() == s[s.len() - 1]);
        lemma_last_entry_wins(s.drop_last(), k, i);
    }
}

/// Without an entry for `k`, nothing is cached for `k`.
proof fn lemma_absent(s: Seq<Entry>, k: Seq<char>)
    requires
        forall|j: int| 0 <= j < s.len() ==> (#[trigger] s[j]).issuer@ != k,
    ensures
        !map_of(s).contains_key(k),
    decreases s.len(),
{
    if s.len() > 0 {
        assert(s.last() == s[s.len() - 1]);
        lemma_absent(s.drop_last(), k);
    }
}

/// Replacing the last entry for `k` replaces the cached key set of `k`.
proof fn lemma_replace_last_entry(s: Seq<Entry>, k: Seq<char>, i: int, e: Entry)
    requires
        0 <= i < s.len(),
        s[i].issuer@ == k,
        e.issuer@ == k,
        forall|j: int| i < j < s.len() ==> (#[trigger] s[j]).issuer@ != k,
    ensures
        map_of(s.update(i, e)) == map_of(s).insert(k, e.cached),
    decreases s.len(),
{
    let t = s.update(i, e);
    if i == s.len() - 1 {
        assert(t.drop_last() =~= s.drop_last());
        assert(map_of(t) =~= map_of(s).insert(k, e.cached));
    } else {
        assert(s.last() == s[s.len() - 1]);
        assert(t.drop_last() =~= s.drop_last().update(i, e));
        lemma_replace_last_entry(s.drop_last(), k, i, e);
        assert(map_of(t) =~= map_of(s).insert(k, e.cached));
    }
}

} // verus!
