//! The cache storage: typed entry maps keyed by request fingerprints or ids,
//! freshness metadata, and the single-flight refresh bookkeeping.
//!
//! Entries are shared out behind [`Arc`] so that a lookup hands the caller a
//! value copy (at the specification level, the very same entry) while the
//! cache keeps its own.  Writes never replace a newer entry with an older
//! one, so `stored_at` is monotone per key.

use vstd::prelude::*;
use std::sync::Arc;
use crate::model::{arc_dup, Creator, Level, NewgroundsSong, PartialLevel};
use crate::request::Fingerprint;

verus! {

/// The metadata attached to every stored entry: when it was stored, and
/// whether it records a confirmed absence.
#[derive(Debug, Clone, Copy, PartialEq, Eq, Structural)]
pub struct CacheEntryMeta {
    pub stored_at: u64,
    pub is_absent: bool,
}

/// What a cache lookup can yield: nothing was ever stored, the remote
/// confirmed absence, or a value with its metadata.
#[derive(Debug, Clone, PartialEq)]
pub enum CacheEntry<V> {
    /// Never stored; a refresh is required to answer the request.
    Missing,
    /// The remote confirmed there is no such object; remembered so that the
    /// framework does not re-fetch until the entry expires.
    MarkedAbsent(CacheEntryMeta),
    /// A cached value.
    Cached(V, CacheEntryMeta),
}

impl<V> CacheEntry<V> {
    /// The metadata of a stored entry.
    pub open spec fn meta(self) -> Option<CacheEntryMeta> {
        match self {
            CacheEntry::Missing => None,
            CacheEntry::MarkedAbsent(m) => Some(m),
            CacheEntry::Cached(_, m) => Some(m),
        }
    }

    /// The store time of the entry, with `Missing` counting as the beginning
    /// of time so that any write may replace it.
    pub open spec fn stored_at_or_zero(self) -> u64 {
        match self {
            CacheEntry::Missing => 0,
            CacheEntry::MarkedAbsent(m) => m.stored_at,
            CacheEntry::Cached(_, m) => m.stored_at,
        }
    }

    pub fn is_missing(&self) -> (r: bool)
        ensures
            r == (*self is Missing),
    {
        matches!(self, CacheEntry::Missing)
    }

    /// Reads the entry as the answer to a singular request: a cached value
    /// is `Some`, a confirmed absence is `None`.
    pub fn into_option(self) -> (r: Option<V>)
        ensures
            match self {
                CacheEntry::Cached(v, _) => r == Some(v),
                _ => r is None,
            },
    {
        match self {
            CacheEntry::Cached(v, _) => Some(v),
            _ => None,
        }
    }
}

/// Whether metadata stored at `meta.stored_at` has fallen out of the
/// freshness window `expiry` at time `now`.
pub open spec fn expired_spec(meta: CacheEntryMeta, expiry: u64, now: u64) -> bool {
    now > meta.stored_at + expiry
}

/// Whether an entry is unusable at `now`: missing entries always are, stored
/// entries exactly when their metadata has expired.
pub open spec fn entry_expired<V>(e: CacheEntry<V>, expiry: u64, now: u64) -> bool {
    match e {
        CacheEntry::Missing => true,
        CacheEntry::MarkedAbsent(m) => expired_spec(m, expiry, now),
        CacheEntry::Cached(_, m) => expired_spec(m, expiry, now),
    }
}

/// A key under which the cache can store entries: it has a mathematical view
/// and a decidable equality on views.
pub trait CacheKey: Sized {
    /// The mathematical content of the key.
    type KeyView;

    /// The view by which keys are compared.
    spec fn key_view(&self) -> Self::KeyView;

    /// Equality of key views.
    fn key_eq(&self, other: &Self) -> (r: bool)
        ensures
            r == (self.key_view() == other.key_view()),
    ;
}

impl CacheKey for Fingerprint {
    type KeyView = (u64, Seq<(u64, Seq<u64>)>);

    open spec fn key_view(&self) -> (u64, Seq<(u64, Seq<u64>)>) {
        self@
    }

    fn key_eq(&self, other: &Self) -> (r: bool)
        ensures
            r == (self.key_view() == other.key_view()),
    {
        self.eq_fp(other)
    }
}

impl CacheKey for u64 {
    type KeyView = u64;

    open spec fn key_view(&self) -> u64 {
        *self
    }

    fn key_eq(&self, other: &Self) -> (r: bool)
        ensures
            r == (self.key_view() == other.key_view()),
    {
        *self == *other
    }
}

/// One typed store of the cache: an association from keys to shared entries,
/// with at most one slot per key view.
pub struct EntryMap<K, V> {
    entries: Vec<(K, Arc<CacheEntry<V>>)>,
}

impl<K: CacheKey, V> EntryMap<K, V> {
    /// The entry stored under `k` in the slot list `s`; `Missing` when no
    /// slot carries that key.
    pub open spec fn spec_find(s: Seq<(K, Arc<CacheEntry<V>>)>, k: K::KeyView) -> CacheEntry<V>
        decreases s.len(),
    {
        if s.len() == 0 {
            CacheEntry::Missing
        } else if s[0].0.key_view() == k {
            *s[0].1
        } else {
            Self::spec_find(s.drop_first(), k)
        }
    }

    /// The entry this map holds under `k`.
    pub closed spec fn entry_at(self, k: K::KeyView) -> CacheEntry<V> {
        Self::spec_find(self.entries@, k)
    }

    /// Every slot carries a distinct key.
    pub closed spec fn wf(self) -> bool {
        forall|i: int, j: int|
            0 <= i < j < self.entries@.len() ==> (#[trigger] self.entries@[i]).0.key_view() != (
            #[trigger] self.entries@[j]).0.key_view()
    }

    pub fn new() -> (r: EntryMap<K, V>)
        ensures
            r.wf(),
            forall|k: K::KeyView| r.entry_at(k) == CacheEntry::<V>::Missing,
    {
        EntryMap { entries: Vec::new() }
    }

    proof fn lemma_find_step(s: Seq<(K, Arc<CacheEntry<V>>)>, k: K::KeyView, i: int)
        requires
            0 <= i < s.len(),
        ensures
            Self::spec_find(s.skip(i), k) == if s[i].0.key_view() == k {
                *s[i].1
            } else {
                Self::spec_find(s.skip(i + 1), k)
            },
    {
        assert(s.skip(i)[0] == s[i]);
        assert(s.skip(i).drop_first() =~= s.skip(i + 1));
    }

    /// Looks up the entry stored under `k`, handing back a shared copy.
    pub fn lookup(&self, k: &K) -> (r: Arc<CacheEntry<V>>)
        ensures
            *r == self.entry_at(k.key_view()),
    {
        let n = self.entries.len();
        let mut i: usize = 0;
        proof {
            assert(self.entries@.skip(0) =~= self.entries@);
        }
        while i < n
            invariant
                n == self.entries@.len(),
                i <= n,
                Self::spec_find(self.entries@, k.key_view()) == Self::spec_find(
                    self.entries@.skip(i as int),
                    k.key_view(),
                ),
            decreases n - i,
        {
            proof {
                Self::lemma_find_step(self.entries@, k.key_view(), i as int);
            }
            let (slot_key, slot_entry) = &self.entries[i];
            if slot_key.key_eq(k) {
                return arc_dup(slot_entry);
            }
            i += 1;
        }
        proof {
            assert(self.entries@.skip(n as int) =~= Seq::empty());
        }
        Arc::new(CacheEntry::Missing)
    }

    proof fn lemma_find_update(
        s: Seq<(K, Arc<CacheEntry<V>>)>,
        i: int,
        p: (K, Arc<CacheEntry<V>>),
        k2: K::KeyView,
    )
        requires
            0 <= i < s.len(),
            p.0.key_view() == s[i].0.key_view(),
            forall|x: int, y: int|
                0 <= x < y < s.len() ==> (#[trigger] s[x]).0.key_view() != (
                #[trigger] s[y]).0.key_view(),
        ensures
            Self::spec_find(s.update(i, p), k2) == if k2 == p.0.key_view() {
                *p.1
            } else {
                Self::spec_find(s, k2)
            },
        decreases s.len(),
    {
        let s2 = s.update(i, p);
        if i == 0 {
            assert(s2[0] == p);
            if k2 == p.0.key_view() {
            } else {
                assert(s2.drop_first() =~= s.drop_first());
            }
        } else {
            assert(s2[0] == s[0]);
            assert(s2.drop_first() =~= s.drop_first().update(i - 1, p));
            assert(forall|x: int, y: int|
                0 <= x < y < s.drop_first().len() ==> (#[trigger] s.drop_first()[x]).0.key_view()
                    != (#[trigger] s.drop_first()[y]).0.key_view());
            Self::lemma_find_update(s.drop_first(), i - 1, p, k2);
            // The head key differs from the key being updated, so the head
            // never answers a query for the updated key.
            assert(s[0].0.key_view() != p.0.key_view());
        }
    }

    proof fn lemma_find_push(
        s: Seq<(K, Arc<CacheEntry<V>>)>,
        p: (K, Arc<CacheEntry<V>>),
        k2: K::KeyView,
    )
        requires
            forall|j: int| 0 <= j < s.len() ==> (#[trigger] s[j]).0.key_view() != p.0.key_view(),
        ensures
            Self::spec_find(s.push(p), k2) == if k2 == p.0.key_view() {
                *p.1
            } else {
                Self::spec_find(s, k2)
            },
        decreases s.len(),
    {
        let s2 = s.push(p);
        if s.len() == 0 {
            assert(s2.len() == 1);
            assert(s2[0] == p);
            assert(s2.drop_first() =~= Seq::empty());
            assert(Self::spec_find(s2.drop_first(), k2) == CacheEntry::<V>::Missing);
            assert(Self::spec_find(s, k2) == CacheEntry::<V>::Missing);
        } else {
            assert(s2[0] == s[0]);
            assert(s2.drop_first() =~= s.drop_first().push(p));
            assert(s[0].0.key_view() != p.0.key_view());
            Self::lemma_find_push(s.drop_first(), p, k2);
        }
    }

    /// Stores `e` under `k`, replacing whatever slot carried that key.
    pub fn insert_arc(&mut self, k: K, e: Arc<CacheEntry<V>>)
        requires
            old(self).wf(),
        ensures
            final(self).wf(),
            final(self).entry_at(k.key_view()) == *e,
            forall|k2: K::KeyView|
                k2 != k.key_view() ==> #[trigger] final(self).entry_at(k2) == old(self).entry_at(
                    k2,
                ),
    {
        let ghost kv = k.key_view();
        let ghost entry_snapshot = self.entries@;
        proof {
            assert(forall|x: int, y: int|
                0 <= x < y < entry_snapshot.len() ==> (#[trigger] entry_snapshot[x]).0.key_view()
                    != (#[trigger] entry_snapshot[y]).0.key_view());
        }
        let n = self.entries.len();
        let mut i: usize = 0;
        while i < n
            invariant
                *self == *old(self),
                entry_snapshot == self.entries@,
                forall|x: int, y: int|
                    0 <= x < y < entry_snapshot.len() ==> (
                    #[trigger] entry_snapshot[x]).0.key_view() != (
                    #[trigger] entry_snapshot[y]).0.key_view(),
                n == self.entries@.len(),
                i <= n,
                forall|j: int|
                    0 <= j < i ==> (#[trigger] self.entries@[j]).0.key_view() != kv,
                kv == k.key_view(),
            decreases n - i,
        {
            let found = self.entries[i].0.key_eq(&k);
            if found {
                let ghost old_entries = self.entries@;
                let p = (k, e);
                let ghost pg = p;
                // Replace the slot in place.
                self.entries.set(i, p);
                proof {
                    assert forall|k2: K::KeyView|
                        #[trigger] Self::spec_find(old_entries.update(i as int, pg), k2) == (if k2
                            == pg.0.key_view() {
                            *pg.1
                        } else {
                            Self::spec_find(old_entries, k2)
                        }) by {
                        Self::lemma_find_update(old_entries, i as int, pg, k2);
                    }
                    assert forall|x: int, y: int|
                        0 <= x < y < self.entries@.len() implies (
                    #[trigger] self.entries@[x]).0.key_view() != (
                    #[trigger] self.entries@[y]).0.key_view() by {
                        assert(entry_snapshot[x].0.key_view() != entry_snapshot[y].0.key_view());
                        assert(entry_snapshot[i as int].0.key_view() == pg.0.key_view());
                        assert(self.entries@[x] == if x == i as int { pg } else { entry_snapshot[x] });
                        assert(self.entries@[y] == if y == i as int { pg } else { entry_snapshot[y] });
                    }
                }
                return ;
            }
            i += 1;
        }
        let ghost old_entries = self.entries@;
        let p = (k, e);
        let ghost pg = p;
        self.entries.push(p);
        proof {
            assert forall|k2: K::KeyView|
                #[trigger] Self::spec_find(old_entries.push(pg), k2) == (if k2 == pg.0.key_view() {
                    *pg.1
                } else {
                    Self::spec_find(old_entries, k2)
                }) by {
                Self::lemma_find_push(old_entries, pg, k2);
            }
            assert forall|x: int, y: int|
                0 <= x < y < self.entries@.len() implies (
            #[trigger] self.entries@[x]).0.key_view() != (
            #[trigger] self.entries@[y]).0.key_view() by {
                if y < old_entries.len() {
                    assert(entry_snapshot[x].0.key_view() != entry_snapshot[y].0.key_view());
                    assert(self.entries@[x] == entry_snapshot[x]);
                    assert(self.entries@[y] == entry_snapshot[y]);
                } else {
                    assert(self.entries@[y] == pg);
                    assert(self.entries@[x] == entry_snapshot[x]);
                    assert(entry_snapshot[x].0.key_view() != kv);
                }
            }
        }
    }
}

/// How many entries of `s` equal `k`.
pub open spec fn count_matches<T>(s: Seq<T>, k: T) -> nat
    decreases s.len(),
{
    if s.len() == 0 {
        0
    } else {
        (if s[0] == k {
            1nat
        } else {
            0nat
        }) + count_matches(s.drop_first(), k)
    }
}

proof fn lemma_count_zero_when_absent<T>(s: Seq<T>, k: T)
    requires
        !s.contains(k),
    ensures
        count_matches(s, k) == 0,
    decreases s.len(),
{
    if s.len() > 0 {
        assert(s[0] != k);
        assert(forall|i: int| 0 <= i < s.drop_first().len() ==> s.drop_first()[i] == s[i + 1]);
        assert(!s.drop_first().contains(k)) by {
            if s.drop_first().contains(k) {
                let i = choose|i: int| 0 <= i < s.drop_first().len() && s.drop_first()[i] == k;
                assert(s[i + 1] == k);
            }
        }
        lemma_count_zero_when_absent(s.drop_first(), k);
    }
}

proof fn lemma_count_no_dup<T>(s: Seq<T>, k: T)
    requires
        s.no_duplicates(),
    ensures
        count_matches(s, k) <= 1,
    decreases s.len(),
{
    if s.len() > 0 {
        assert(s.drop_first().no_duplicates());
        if s[0] == k {
            assert(!s.drop_first().contains(k)) by {
                if s.drop_first().contains(k) {
                    let i = choose|i: int|
                        0 <= i < s.drop_first().len() && s.drop_first()[i] == k;
                    assert(s[i + 1] == k);
                    assert(s[0] == s[i + 1]);
                }
            }
            lemma_count_zero_when_absent(s.drop_first(), k);
        } else {
            lemma_count_no_dup(s.drop_first(), k);
        }
    }
}

/// The cache a [`crate::Gdcf`] handle owns: one typed store per kind of
/// object, the freshness window, and the set of fingerprints whose refresh
/// is currently in flight.
pub struct GdcfCache {
    expiry: u64,
    levels: EntryMap<Fingerprint, Level<Option<u64>, u64>>,
    level_lists: EntryMap<Fingerprint, Vec<PartialLevel<Option<u64>, u64>>>,
    songs: EntryMap<u64, NewgroundsSong>,
    creators: EntryMap<u64, Creator>,
    in_flight: Vec<Fingerprint>,
}

impl GdcfCache {
    /// The views of the fingerprints whose refresh is in flight.
    pub closed spec fn inflight_views(self) -> Seq<(u64, Seq<(u64, Seq<u64>)>)> {
        self.in_flight@.map_values(|f: Fingerprint| f@)
    }

    /// Whether a refresh for the fingerprint `k` is in flight.
    pub open spec fn is_in_flight(self, k: (u64, Seq<(u64, Seq<u64>)>)) -> bool {
        self.inflight_views().contains(k)
    }

    /// How many refreshes for the fingerprint `k` are in flight.
    pub open spec fn inflight_count(self, k: (u64, Seq<(u64, Seq<u64>)>)) -> nat {
        count_matches(self.inflight_views(), k)
    }

    /// The freshness window this cache was configured with.
    pub closed spec fn expiry_spec(self) -> u64 {
        self.expiry
    }

    /// The entry stored for a singular level request fingerprint.
    pub closed spec fn level_entry(self, k: (u64, Seq<(u64, Seq<u64>)>)) -> CacheEntry<
        Level<Option<u64>, u64>,
    > {
        self.levels.entry_at(k)
    }

    /// The entry stored for a level-list request fingerprint.
    pub closed spec fn level_list_entry(self, k: (u64, Seq<(u64, Seq<u64>)>)) -> CacheEntry<
        Vec<PartialLevel<Option<u64>, u64>>,
    > {
        self.level_lists.entry_at(k)
    }

    /// The entry stored for a newgrounds song id.
    pub closed spec fn song_entry(self, id: u64) -> CacheEntry<NewgroundsSong> {
        self.songs.entry_at(id)
    }

    /// The entry stored for a creator id.
    pub closed spec fn creator_entry(self, id: u64) -> CacheEntry<Creator> {
        self.creators.entry_at(id)
    }

    /// The cache invariant: distinct slots carry distinct keys, and no
    /// fingerprint is in flight twice.
    pub closed spec fn wf(self) -> bool {
        &&& self.levels.wf()
        &&& self.level_lists.wf()
        &&& self.songs.wf()
        &&& self.creators.wf()
        &&& self.inflight_views().no_duplicates()
    }

    /// Creates an empty cache with the given freshness window.
    pub fn new(expiry: u64) -> (r: GdcfCache)
        ensures
            r.wf(),
            r.expiry_spec() == expiry,
            forall|k: (u64, Seq<(u64, Seq<u64>)>)|
                #[trigger] r.level_entry(k) == CacheEntry::<Level<Option<u64>, u64>>::Missing,
            forall|k: (u64, Seq<(u64, Seq<u64>)>)|
                #[trigger] r.level_list_entry(k) == CacheEntry::<
                    Vec<PartialLevel<Option<u64>, u64>>,
                >::Missing,
            forall|id: u64| #[trigger] r.song_entry(id) == CacheEntry::<NewgroundsSong>::Missing,
            forall|id: u64| #[trigger] r.creator_entry(id) == CacheEntry::<Creator>::Missing,
            forall|k: (u64, Seq<(u64, Seq<u64>)>)| !(#[trigger] r.is_in_flight(k)),
    {
        let r = GdcfCache {
            expiry,
            levels: EntryMap::new(),
            level_lists: EntryMap::new(),
            songs: EntryMap::new(),
            creators: EntryMap::new(),
            in_flight: Vec::new(),
        };
        proof {
            assert(r.inflight_views() =~= Seq::<(u64, Seq<(u64, Seq<u64>)>)>::empty());
        }
        r
    }

    /// The freshness window.
    pub fn expiry(&self) -> (r: u64)
        ensures
            r == self.expiry_spec(),
    {
        self.expiry
    }

    /// Whether an entry has expired at time `now` under this cache's window.
    pub fn is_entry_expired<V>(&self, e: &CacheEntry<V>, now: u64) -> (r: bool)
        ensures
            r == entry_expired(*e, self.expiry_spec(), now),
    {
        match e {
            CacheEntry::Missing => true,
            CacheEntry::MarkedAbsent(m) => self.is_expired_meta(m, now),
            CacheEntry::Cached(_, m) => self.is_expired_meta(m, now),
        }
    }

    /// Whether metadata has expired at time `now` under this cache's window.
    pub fn is_expired_meta(&self, m: &CacheEntryMeta, now: u64) -> (r: bool)
        ensures
            r == expired_spec(*m, self.expiry_spec(), now),
    {
        if now <= m.stored_at {
            false
        } else {
            now - m.stored_at > self.expiry
        }
    }

    pub fn lookup_level(&self, fp: &Fingerprint) -> (r: Arc<CacheEntry<Level<Option<u64>, u64>>>)
        ensures
            *r == self.level_entry(fp@),
    {
        self.levels.lookup(fp)
    }

    pub fn lookup_level_list(&self, fp: &Fingerprint) -> (r: Arc<
        CacheEntry<Vec<PartialLevel<Option<u64>, u64>>>,
    >)
        ensures
            *r == self.level_list_entry(fp@),
    {
        self.level_lists.lookup(fp)
    }

    pub fn lookup_song(&self, id: u64) -> (r: Arc<CacheEntry<NewgroundsSong>>)
        ensures
            *r == self.song_entry(id),
    {
        self.songs.lookup(&id)
    }

    pub fn lookup_creator(&self, id: u64) -> (r: Arc<CacheEntry<Creator>>)
        ensures
            *r == self.creator_entry(id),
    {
        self.creators.lookup(&id)
    }

    /// What the level store holds under `k` after a write of `e` at `now`:
    /// the write lands unless the existing entry is newer.
    pub open spec fn written_entry<V>(
        old_entry: CacheEntry<V>,
        e: CacheEntry<V>,
        now: u64,
    ) -> CacheEntry<V> {
        if now >= old_entry.stored_at_or_zero() {
            e
        } else {
            old_entry
        }
    }

    /// Stores a level under its request fingerprint, marking it stored at
    /// `now`.  A newer existing entry is kept instead: `stored_at` never
    /// decreases.  Returns the entry the store now holds.
    pub fn store_level(
        &mut self,
        fp: Fingerprint,
        level: Level<Option<u64>, u64>,
        now: u64,
    ) -> (r: Arc<CacheEntry<Level<Option<u64>, u64>>>)
        requires
            old(self).wf(),
        ensures
            final(self).wf(),
            *r == final(self).level_entry(fp@),
            final(self).level_entry(fp@) == GdcfCache::written_entry(
                old(self).level_entry(fp@),
                CacheEntry::Cached(level, CacheEntryMeta { stored_at: now, is_absent: false }),
                now,
            ),
            final(self).level_entry(fp@).stored_at_or_zero() >= old(self).level_entry(
                fp@,
            ).stored_at_or_zero(),
            forall|k2: (u64, Seq<(u64, Seq<u64>)>)|
                k2 != fp@ ==> #[trigger] final(self).level_entry(k2) == old(self).level_entry(k2),
            forall|kx: (u64, Seq<(u64, Seq<u64>)>)|
                #[trigger] final(self).level_list_entry(kx) == old(self).level_list_entry(kx),
            forall|idx: u64| #[trigger] final(self).song_entry(idx) == old(self).song_entry(idx),
            forall|idx: u64| #[trigger] final(self).creator_entry(idx) == old(self).creator_entry(idx),
            final(self).inflight_views() == old(self).inflight_views(),
            final(self).expiry_spec() == old(self).expiry_spec(),
    {
        let entry = CacheEntry::Cached(level, CacheEntryMeta { stored_at: now, is_absent: false });
        self.put_level(fp, entry, now)
    }

    /// Marks a singular level request as confirmed absent at `now`.
    pub fn mark_level_absent(&mut self, fp: Fingerprint, now: u64) -> (r: Arc<
        CacheEntry<Level<Option<u64>, u64>>,
    >)
        requires
            old(self).wf(),
        ensures
            final(self).wf(),
            *r == final(self).level_entry(fp@),
            final(self).level_entry(fp@) == GdcfCache::written_entry(
                old(self).level_entry(fp@),
                CacheEntry::MarkedAbsent(CacheEntryMeta { stored_at: now, is_absent: true }),
                now,
            ),
            final(self).level_entry(fp@).stored_at_or_zero() >= old(self).level_entry(
                fp@,
            ).stored_at_or_zero(),
            forall|k2: (u64, Seq<(u64, Seq<u64>)>)|
                k2 != fp@ ==> #[trigger] final(self).level_entry(k2) == old(self).level_entry(k2),
            forall|kx: (u64, Seq<(u64, Seq<u64>)>)|
                #[trigger] final(self).level_list_entry(kx) == old(self).level_list_entry(kx),
            forall|idx: u64| #[trigger] final(self).song_entry(idx) == old(self).song_entry(idx),
            forall|idx: u64| #[trigger] final(self).creator_entry(idx) == old(self).creator_entry(idx),
            final(self).inflight_views() == old(self).inflight_views(),
            final(self).expiry_spec() == old(self).expiry_spec(),
    {
        let entry = CacheEntry::MarkedAbsent(CacheEntryMeta { stored_at: now, is_absent: true });
        self.put_level(fp, entry, now)
    }

    fn put_level(
        &mut self,
        fp: Fingerprint,
        entry: CacheEntry<Level<Option<u64>, u64>>,
        now: u64,
    ) -> (r: Arc<CacheEntry<Level<Option<u64>, u64>>>)
        requires
            old(self).wf(),
            entry.stored_at_or_zero() == now,
        ensures
            final(self).wf(),
            *r == final(self).level_entry(fp@),
            final(self).level_entry(fp@) == GdcfCache::written_entry(
                old(self).level_entry(fp@),
                entry,
                now,
            ),
            final(self).level_entry(fp@).stored_at_or_zero() >= old(self).level_entry(
                fp@,
            ).stored_at_or_zero(),
            forall|k2: (u64, Seq<(u64, Seq<u64>)>)|
                k2 != fp@ ==> #[trigger] final(self).level_entry(k2) == old(self).level_entry(k2),
            forall|kx: (u64, Seq<(u64, Seq<u64>)>)|
                #[trigger] final(self).level_list_entry(kx) == old(self).level_list_entry(kx),
            forall|idx: u64| #[trigger] final(self).song_entry(idx) == old(self).song_entry(idx),
            forall|idx: u64| #[trigger] final(self).creator_entry(idx) == old(self).creator_entry(idx),
            final(self).inflight_views() == old(self).inflight_views(),
            final(self).expiry_spec() == old(self).expiry_spec(),
    {
        let existing = self.levels.lookup(&fp);
        let keep_existing = match &*existing {
            CacheEntry::Missing => false,
            CacheEntry::MarkedAbsent(m) => now < m.stored_at,
            CacheEntry::Cached(_, m) => now < m.stored_at,
        };
        if keep_existing {
            existing
        } else {
            let shared = Arc::new(entry);
            let result = arc_dup(&shared);
            self.levels.insert_arc(fp, shared);
            result
        }
    }

    /// Stores a level list under its request fingerprint at `now`, keeping a
    /// newer existing entry instead.
    pub fn store_level_list(
        &mut self,
        fp: Fingerprint,
        levels: Vec<PartialLevel<Option<u64>, u64>>,
        now: u64,
    ) -> (r: Arc<CacheEntry<Vec<PartialLevel<Option<u64>, u64>>>>)
        requires
            old(self).wf(),
        ensures
            final(self).wf(),
            *r == final(self).level_list_entry(fp@),
            final(self).level_list_entry(fp@) == GdcfCache::written_entry(
                old(self).level_list_entry(fp@),
                CacheEntry::Cached(levels, CacheEntryMeta { stored_at: now, is_absent: false }),
                now,
            ),
            final(self).level_list_entry(fp@).stored_at_or_zero() >= old(self).level_list_entry(
                fp@,
            ).stored_at_or_zero(),
            forall|k2: (u64, Seq<(u64, Seq<u64>)>)|
                k2 != fp@ ==> #[trigger] final(self).level_list_entry(k2) == old(
                    self,
                ).level_list_entry(k2),
            forall|kx: (u64, Seq<(u64, Seq<u64>)>)|
                #[trigger] final(self).level_entry(kx) == old(self).level_entry(kx),
            forall|idx: u64| #[trigger] final(self).song_entry(idx) == old(self).song_entry(idx),
            forall|idx: u64| #[trigger] final(self).creator_entry(idx) == old(self).creator_entry(idx),
            final(self).inflight_views() == old(self).inflight_views(),
            final(self).expiry_spec() == old(self).expiry_spec(),
    {
        let entry = CacheEntry::Cached(levels, CacheEntryMeta { stored_at: now, is_absent: false });
        self.put_level_list(fp, entry, now)
    }

    /// Marks a level-list request as confirmed empty at `now`.
    pub fn mark_level_list_absent(&mut self, fp: Fingerprint, now: u64) -> (r: Arc<
        CacheEntry<Vec<PartialLevel<Option<u64>, u64>>>,
    >)
        requires
            old(self).wf(),
        ensures
            final(self).wf(),
            *r == final(self).level_list_entry(fp@),
            final(self).level_list_entry(fp@) == GdcfCache::written_entry(
                old(self).level_list_entry(fp@),
                CacheEntry::MarkedAbsent(CacheEntryMeta { stored_at: now, is_absent: true }),
                now,
            ),
            final(self).level_list_entry(fp@).stored_at_or_zero() >= old(self).level_list_entry(
                fp@,
            ).stored_at_or_zero(),
            forall|k2: (u64, Seq<(u64, Seq<u64>)>)|
                k2 != fp@ ==> #[trigger] final(self).level_list_entry(k2) == old(
                    self,
                ).level_list_entry(k2),
            forall|kx: (u64, Seq<(u64, Seq<u64>)>)|
                #[trigger] final(self).level_entry(kx) == old(self).level_entry(kx),
            forall|idx: u64| #[trigger] final(self).song_entry(idx) == old(self).song_entry(idx),
            forall|idx: u64| #[trigger] final(self).creator_entry(idx) == old(self).creator_entry(idx),
            final(self).inflight_views() == old(self).inflight_views(),
            final(self).expiry_spec() == old(self).expiry_spec(),
    {
        let entry = CacheEntry::MarkedAbsent(CacheEntryMeta { stored_at: now, is_absent: true });
        self.put_level_list(fp, entry, now)
    }

    fn put_level_list(
        &mut self,
        fp: Fingerprint,
        entry: CacheEntry<Vec<PartialLevel<Option<u64>, u64>>>,
        now: u64,
    ) -> (r: Arc<CacheEntry<Vec<PartialLevel<Option<u64>, u64>>>>)
        requires
            old(self).wf(),
            entry.stored_at_or_zero() == now,
        ensures
            final(self).wf(),
            *r == final(self).level_list_entry(fp@),
            final(self).level_list_entry(fp@) == GdcfCache::written_entry(
                old(self).level_list_entry(fp@),
                entry,
                now,
            ),
            final(self).level_list_entry(fp@).stored_at_or_zero() >= old(self).level_list_entry(
                fp@,
            ).stored_at_or_zero(),
            forall|k2: (u64, Seq<(u64, Seq<u64>)>)|
                k2 != fp@ ==> #[trigger] final(self).level_list_entry(k2) == old(
                    self,
                ).level_list_entry(k2),
            forall|kx: (u64, Seq<(u64, Seq<u64>)>)|
                #[trigger] final(self).level_entry(kx) == old(self).level_entry(kx),
            forall|idx: u64| #[trigger] final(self).song_entry(idx) == old(self).song_entry(idx),
            forall|idx: u64| #[trigger] final(self).creator_entry(idx) == old(self).creator_entry(idx),
            final(self).inflight_views() == old(self).inflight_views(),
            final(self).expiry_spec() == old(self).expiry_spec(),
    {
        let existing = self.level_lists.lookup(&fp);
        let keep_existing = match &*existing {
            CacheEntry::Missing => false,
            CacheEntry::MarkedAbsent(m) => now < m.stored_at,
            CacheEntry::Cached(_, m) => now < m.stored_at,
        };
        if keep_existing {
            existing
        } else {
            let shared = Arc::new(entry);
            let result = arc_dup(&shared);
            self.level_lists.insert_arc(fp, shared);
            result
        }
    }

    /// Stores a song discovered in a list response under its id at `now`,
    /// keeping a newer existing entry instead.
    pub fn store_song(&mut self, song: NewgroundsSong, now: u64)
        requires
            old(self).wf(),
        ensures
            final(self).wf(),
            final(self).song_entry(song.song_id) == GdcfCache::written_entry(
                old(self).song_entry(song.song_id),
                CacheEntry::Cached(song, CacheEntryMeta { stored_at: now, is_absent: false }),
                now,
            ),
            final(self).song_entry(song.song_id).stored_at_or_zero() >= old(self).song_entry(
                song.song_id,
            ).stored_at_or_zero(),
            forall|id2: u64|
                id2 != song.song_id ==> #[trigger] final(self).song_entry(id2) == old(
                    self,
                ).song_entry(id2),
            forall|kx: (u64, Seq<(u64, Seq<u64>)>)|
                #[trigger] final(self).level_entry(kx) == old(self).level_entry(kx),
            forall|kx: (u64, Seq<(u64, Seq<u64>)>)|
                #[trigger] final(self).level_list_entry(kx) == old(self).level_list_entry(kx),
            forall|idx: u64| #[trigger] final(self).creator_entry(idx) == old(self).creator_entry(idx),
            final(self).inflight_views() == old(self).inflight_views(),
            final(self).expiry_spec() == old(self).expiry_spec(),
    {
        let id = song.song_id;
        let existing = self.songs.lookup(&id);
        let keep_existing = match &*existing {
            CacheEntry::Missing => false,
            CacheEntry::MarkedAbsent(m) => now < m.stored_at,
            CacheEntry::Cached(_, m) => now < m.stored_at,
        };
        if !keep_existing {
            let entry = CacheEntry::Cached(
                song,
                CacheEntryMeta { stored_at: now, is_absent: false },
            );
            self.songs.insert_arc(id, Arc::new(entry));
        }
    }

    /// Stores a creator discovered in a list response under its id at `now`,
    /// keeping a newer existing entry instead.
    pub fn store_creator(&mut self, creator: Creator, now: u64)
        requires
            old(self).wf(),
        ensures
            final(self).wf(),
            final(self).creator_entry(creator.user_id) == GdcfCache::written_entry(
                old(self).creator_entry(creator.user_id),
                CacheEntry::Cached(creator, CacheEntryMeta { stored_at: now, is_absent: false }),
                now,
            ),
            final(self).creator_entry(creator.user_id).stored_at_or_zero() >= old(
                self,
            ).creator_entry(creator.user_id).stored_at_or_zero(),
            forall|id2: u64|
                id2 != creator.user_id ==> #[trigger] final(self).creator_entry(id2) == old(
                    self,
                ).creator_entry(id2),
            forall|kx: (u64, Seq<(u64, Seq<u64>)>)|
                #[trigger] final(self).level_entry(kx) == old(self).level_entry(kx),
            forall|kx: (u64, Seq<(u64, Seq<u64>)>)|
                #[trigger] final(self).level_list_entry(kx) == old(self).level_list_entry(kx),
            forall|idx: u64| #[trigger] final(self).song_entry(idx) == old(self).song_entry(idx),
            final(self).inflight_views() == old(self).inflight_views(),
            final(self).expiry_spec() == old(self).expiry_spec(),
    {
        let id = creator.user_id;
        let existing = self.creators.lookup(&id);
        let keep_existing = match &*existing {
            CacheEntry::Missing => false,
            CacheEntry::MarkedAbsent(m) => now < m.stored_at,
            CacheEntry::Cached(_, m) => now < m.stored_at,
        };
        if !keep_existing {
            let entry = CacheEntry::Cached(
                creator,
                CacheEntryMeta { stored_at: now, is_absent: false },
            );
            self.creators.insert_arc(id, Arc::new(entry));
        }
    }

    /// Whether a refresh for `fp` is currently in flight.
    pub fn refresh_in_flight(&self, fp: &Fingerprint) -> (r: bool)
        ensures
            r == self.is_in_flight(fp@),
    {
        let n = self.in_flight.len();
        let mut i: usize = 0;
        while i < n
            invariant
                n == self.in_flight@.len(),
                i <= n,
                forall|j: int| 0 <= j < i ==> self.in_flight@[j]@ != fp@,
            decreases n - i,
        {
            if self.in_flight[i].eq_fp(fp) {
                proof {
                    assert(self.inflight_views()[i as int] == fp@);
                }
                return true;
            }
            i += 1;
        }
        proof {
            if self.is_in_flight(fp@) {
                let j = choose|j: int|
                    0 <= j < self.inflight_views().len() && self.inflight_views()[j] == fp@;
                assert(self.in_flight@[j]@ == fp@);
            }
        }
        false
    }

    /// Registers a refresh for `fp`.  The caller becomes the leader — the
    /// one party that performs the network call — exactly when no refresh
    /// for this fingerprint was in flight; a follower shares the leader's
    /// completion through the cache instead.
    pub fn register_refresh(&mut self, fp: Fingerprint) -> (leader: bool)
        requires
            old(self).wf(),
        ensures
            final(self).wf(),
            leader == !old(self).is_in_flight(fp@),
            leader ==> final(self).inflight_views() == old(self).inflight_views().push(fp@),
            !leader ==> final(self).inflight_views() == old(self).inflight_views(),
            final(self).is_in_flight(fp@),
            forall|k2: (u64, Seq<(u64, Seq<u64>)>)|
                k2 != fp@ ==> #[trigger] final(self).is_in_flight(k2) == old(self).is_in_flight(
                    k2,
                ),
            forall|kx: (u64, Seq<(u64, Seq<u64>)>)|
                #[trigger] final(self).level_entry(kx) == old(self).level_entry(kx),
            forall|kx: (u64, Seq<(u64, Seq<u64>)>)|
                #[trigger] final(self).level_list_entry(kx) == old(self).level_list_entry(kx),
            forall|idx: u64| #[trigger] final(self).song_entry(idx) == old(self).song_entry(idx),
            forall|idx: u64| #[trigger] final(self).creator_entry(idx) == old(self).creator_entry(idx),
            final(self).expiry_spec() == old(self).expiry_spec(),
    {
        if self.refresh_in_flight(&fp) {
            false
        } else {
            let ghost old_views = self.inflight_views();
            self.in_flight.push(fp);
            proof {
                assert(self.inflight_views() =~= old_views.push(fp@));
                assert(self.inflight_views().no_duplicates());
                assert(self.inflight_views().contains(fp@)) by {
                    assert(self.inflight_views()[old_views.len() as int] == fp@);
                }
                assert forall|k2: (u64, Seq<(u64, Seq<u64>)>)|
                    k2 != fp@ implies #[trigger] self.is_in_flight(k2) == old_views.contains(
                    k2,
                ) by {
                    if self.is_in_flight(k2) {
                        let j = choose|j: int|
                            0 <= j < self.inflight_views().len() && self.inflight_views()[j] == k2;
                        assert(old_views.push(fp@)[j] == k2);
                        assert(old_views[j] == k2);
                    }
                    if old_views.contains(k2) {
                        let j = choose|j: int|
                            0 <= j < old_views.len() && old_views[j] == k2;
                        assert(self.inflight_views()[j] == k2);
                    }
                }
            }
            true
        }
    }

    /// Ends the refresh for `fp`, whether it completed or was abandoned:
    /// afterwards no refresh for `fp` is in flight, so a later caller can
    /// start a new one.  Sibling refreshes are untouched.
    pub fn finish_refresh(&mut self, fp: &Fingerprint)
        requires
            old(self).wf(),
        ensures
            final(self).wf(),
            !final(self).is_in_flight(fp@),
            forall|k2: (u64, Seq<(u64, Seq<u64>)>)|
                k2 != fp@ ==> #[trigger] final(self).is_in_flight(k2) == old(self).is_in_flight(
                    k2,
                ),
            forall|kx: (u64, Seq<(u64, Seq<u64>)>)|
                #[trigger] final(self).level_entry(kx) == old(self).level_entry(kx),
            forall|kx: (u64, Seq<(u64, Seq<u64>)>)|
                #[trigger] final(self).level_list_entry(kx) == old(self).level_list_entry(kx),
            forall|idx: u64| #[trigger] final(self).song_entry(idx) == old(self).song_entry(idx),
            forall|idx: u64|
                #[trigger] final(self).creator_entry(idx) == old(self).creator_entry(idx),
            final(self).expiry_spec() == old(self).expiry_spec(),
    {
        let n = self.in_flight.len();
        let mut i: usize = 0;
        while i < n
            invariant
                *self == *old(self),
                old(self).wf(),
                n == self.in_flight@.len(),
                i <= n,
                forall|j: int| 0 <= j < i ==> self.in_flight@[j]@ != fp@,
            decreases n - i,
        {
            if self.in_flight[i].eq_fp(fp) {
                let ghost old_in = self.in_flight@;
                let ghost old_views = self.inflight_views();
                proof {
                    assert(old_views.no_duplicates());
                    assert(forall|j: int|
                        0 <= j < old_views.len() ==> #[trigger] old_views[j] == old_in[j]@);
                    assert(old_views[i as int] == fp@);
                }
                self.in_flight.remove(i);
                proof {
                    assert(self.in_flight@ == old_in.remove(i as int));
                    assert forall|x: int|
                        0 <= x < self.inflight_views().len() implies #[trigger] self.inflight_views()[x]
                        == (if x < i as int {
                        old_views[x]
                    } else {
                        old_views[x + 1]
                    }) by {
                        assert(self.inflight_views()[x] == self.in_flight@[x]@);
                        if x < i as int {
                            assert(self.in_flight@[x] == old_in[x]);
                        } else {
                            assert(self.in_flight@[x] == old_in[x + 1]);
                        }
                    }
                    assert(self.inflight_views().len() == old_views.len() - 1);
                    assert(self.inflight_views().no_duplicates()) by {
                        assert forall|x: int, y: int|
                            0 <= x < self.inflight_views().len() && 0 <= y
                                < self.inflight_views().len() && x != y implies self.inflight_views()[x]
                            != self.inflight_views()[y] by {
                            let ox: int = if x < i as int {
                                x
                            } else {
                                x + 1
                            };
                            let oy: int = if y < i as int {
                                y
                            } else {
                                y + 1
                            };
                            assert(self.inflight_views()[x] == old_views[ox]);
                            assert(self.inflight_views()[y] == old_views[oy]);
                        }
                    }
                    assert(!self.inflight_views().contains(fp@)) by {
                        if self.inflight_views().contains(fp@) {
                            let j = choose|j: int|
                                0 <= j < self.inflight_views().len() && self.inflight_views()[j]
                                    == fp@;
                            if j < i as int {
                                assert(old_views[j] == fp@);
                                assert(old_views[i as int] == fp@);
                            } else {
                                assert(old_views[j + 1] == fp@);
                                assert(old_views[i as int] == fp@);
                            }
                        }
                    }
                    assert forall|k2: (u64, Seq<(u64, Seq<u64>)>)|
                        k2 != fp@ implies #[trigger] self.is_in_flight(k2) == old_views.contains(
                        k2,
                    ) by {
                        if self.is_in_flight(k2) {
                            let j = choose|j: int|
                                0 <= j < self.inflight_views().len() && self.inflight_views()[j]
                                    == k2;
                            if j < i as int {
                                assert(old_views[j] == k2);
                            } else {
                                assert(old_views[j + 1] == k2);
                            }
                        }
                        if old_views.contains(k2) {
                            let j = choose|j: int|
                                0 <= j < old_views.len() && old_views[j] == k2;
                            if j < i as int {
                                assert(self.inflight_views()[j] == k2);
                            } else {
                                assert(old_views[i as int] == fp@);
                                assert(j != i as int);
                                assert(self.inflight_views()[j - 1] == old_views[j]);
                            }
                        }
                    }
                }
                return ;
            }
            i += 1;
        }
        proof {
            if self.is_in_flight(fp@) {
                let j = choose|j: int|
                    0 <= j < self.inflight_views().len() && self.inflight_views()[j] == fp@;
                assert(self.in_flight@[j]@ == fp@);
            }
        }
    }
}

/// For every fingerprint, at most one refresh is in flight at a time.
pub proof fn lemma_single_flight(cache: GdcfCache, k: (u64, Seq<(u64, Seq<u64>)>))
    requires
        cache.wf(),
    ensures
        cache.inflight_count(k) <= 1,
{
    lemma_count_no_dup(cache.inflight_views(), k);
}

} // verus!
