//! The refresh-and-serve machinery: the refresh token, the process-request
//! state machine, and the application of API responses to the cache.
//!
//! A [`ProcessRequestFuture`] makes its decision once, synchronously, at
//! construction: serve the cached entry, refresh and then serve, or serve
//! the stale entry while refreshing.  Polling is driven from outside: the
//! caller performs the network call for the request held by the leader
//! refresh token and hands the response back in, and the response is applied
//! to the cache exactly as the protocol prescribes — successes are stored,
//! confirmed-empty results are marked absent, and failures never touch the
//! cache.

use vstd::prelude::*;
use std::sync::Arc;
use crate::cache::{CacheEntry, CacheEntryMeta, GdcfCache, entry_expired};
use crate::error::{ApiError, GdcfError};
use crate::model::{Creator, Level, NewgroundsSong, PartialLevel};
use crate::request::{LevelRequest, LevelsRequest, Request};
use crate::Gdcf;

verus! {

/// The fingerprint view of a request.
pub open spec fn fp_view<R: Request>(r: R) -> (u64, Seq<(u64, Seq<u64>)>) {
    (r.fingerprint_kind(), r.fingerprint_fields_spec())
}

/// A pending refresh for one request.  The leader token is held by the one
/// caller that performs the network call for this fingerprint; a follower
/// token waits for the leader's write to land in the cache.
pub struct RefreshCacheFuture<R: Request> {
    pub(crate) request: R,
    pub(crate) leader: bool,
}

impl<R: Request> RefreshCacheFuture<R> {
    /// The request this refresh is for.
    pub closed spec fn request_spec(self) -> R {
        self.request
    }

    /// Whether this token's holder performs the network call.
    pub closed spec fn is_leader(self) -> bool {
        self.leader
    }

    /// Whether this token's holder performs the network call.
    pub fn leader(&self) -> (r: bool)
        ensures
            r == self.is_leader(),
    {
        self.leader
    }

    /// The request whose response the holder must obtain.
    pub fn request(&self) -> (r: &R)
        ensures
            *r == self.request_spec(),
    {
        &self.request
    }
}

/// The state a process-request future is constructed in.
pub enum ProcessRequestFutureState<R: Request> {
    /// No usable cache entry exists; polling resolves the refresh.
    Uncached(RefreshCacheFuture<R>),
    /// A stale entry exists: it is peekable now, and polling resolves the
    /// refresh.  The stale entry is never returned by polling.
    Outdated(Arc<CacheEntry<R::Result>>, RefreshCacheFuture<R>),
    /// The cached entry is fresh; polling returns it once.
    UpToDate(Option<Arc<CacheEntry<R::Result>>>, R),
}

/// The selection rule of the state machine: given the cache entry for the
/// request and its freshness verdict, exactly one state fits.
pub open spec fn selection<R: Request>(
    s: ProcessRequestFutureState<R>,
    entry: CacheEntry<R::Result>,
    request: R,
    expired: bool,
) -> bool {
    match s {
        ProcessRequestFutureState::Uncached(fut) => {
            &&& entry is Missing
            &&& fut.request_spec() == request
        },
        ProcessRequestFutureState::Outdated(e, fut) => {
            &&& !(entry is Missing)
            &&& (expired || request.forces_refresh_spec())
            &&& *e == entry
            &&& fut.request_spec() == request
        },
        ProcessRequestFutureState::UpToDate(oe, req) => {
            &&& !(entry is Missing)
            &&& !expired
            &&& !request.forces_refresh_spec()
            &&& match oe {
                Some(e) => *e == entry,
                None => false,
            }
            &&& req == request
        },
    }
}

/// A forced request is never served as up to date: its state is `Outdated`
/// or `Uncached`.
pub proof fn lemma_force_refresh_never_up_to_date<R: Request>(
    s: ProcessRequestFutureState<R>,
    entry: CacheEntry<R::Result>,
    request: R,
    expired: bool,
)
    requires
        selection(s, entry, request, expired),
        request.forces_refresh_spec(),
    ensures
        !(s is UpToDate),
{
}

/// A marked-absent entry within the freshness window, not forced, is served
/// as up to date: no refresh — and so no API call — is started for it.
pub proof fn lemma_fresh_absent_served_from_cache<R: Request>(
    s: ProcessRequestFutureState<R>,
    entry: CacheEntry<R::Result>,
    request: R,
    expired: bool,
)
    requires
        selection(s, entry, request, expired),
        entry is MarkedAbsent,
        !expired,
        !request.forces_refresh_spec(),
    ensures
        s matches ProcessRequestFutureState::UpToDate(Some(e), req) && *e == entry && req
            == request,
{
}

/// What registering a refresh for `request` does to the cache: the caller
/// becomes the leader exactly when no refresh for the fingerprint was in
/// flight, and nothing else changes.
pub open spec fn refresh_started<R: Request>(
    before: GdcfCache,
    after: GdcfCache,
    fut: RefreshCacheFuture<R>,
    request: R,
) -> bool {
    let k = fp_view(request);
    &&& fut.request_spec() == request
    &&& fut.is_leader() == !before.is_in_flight(k)
    &&& after.is_in_flight(k)
    &&& (fut.is_leader() ==> after.inflight_views() == before.inflight_views().push(k))
    &&& (!fut.is_leader() ==> after.inflight_views() == before.inflight_views())
    &&& (forall|k2: (u64, Seq<(u64, Seq<u64>)>)|
        k2 != k ==> #[trigger] after.is_in_flight(k2) == before.is_in_flight(k2))
    &&& (forall|kx: (u64, Seq<(u64, Seq<u64>)>)|
        #[trigger] after.level_entry(kx) == before.level_entry(kx))
    &&& (forall|kx: (u64, Seq<(u64, Seq<u64>)>)|
        #[trigger] after.level_list_entry(kx) == before.level_list_entry(kx))
    &&& (forall|idx: u64| #[trigger] after.song_entry(idx) == before.song_entry(idx))
    &&& (forall|idx: u64| #[trigger] after.creator_entry(idx) == before.creator_entry(idx))
    &&& after.expiry_spec() == before.expiry_spec()
}

/// Decides the state for a singular level request: the selection table
/// applied to the entry under the request's fingerprint, registering a
/// refresh when one is needed.
pub(crate) fn process_level(cache: &mut GdcfCache, request: LevelRequest, now: u64) -> (s:
    ProcessRequestFutureState<LevelRequest>)
    requires
        old(cache).wf(),
    ensures
        final(cache).wf(),
        final(cache).expiry_spec() == old(cache).expiry_spec(),
        selection(
            s,
            old(cache).level_entry(fp_view(request)),
            request,
            entry_expired(
                old(cache).level_entry(fp_view(request)),
                old(cache).expiry_spec(),
                now,
            ),
        ),
        match s {
            ProcessRequestFutureState::Uncached(fut) => refresh_started(
                *old(cache),
                *final(cache),
                fut,
                request,
            ),
            ProcessRequestFutureState::Outdated(_, fut) => refresh_started(
                *old(cache),
                *final(cache),
                fut,
                request,
            ),
            ProcessRequestFutureState::UpToDate(_, _) => *final(cache) == *old(cache),
        },
{
    let fp = request.fingerprint();
    let entry = cache.lookup_level(&fp);
    if entry.is_missing() {
        let leader = cache.register_refresh(fp);
        ProcessRequestFutureState::Uncached(RefreshCacheFuture { request, leader })
    } else {
        let expired = cache.is_entry_expired(&*entry, now);
        let force = request.forces_refresh();
        if expired || force {
            let leader = cache.register_refresh(fp);
            ProcessRequestFutureState::Outdated(entry, RefreshCacheFuture { request, leader })
        } else {
            ProcessRequestFutureState::UpToDate(Some(entry), request)
        }
    }
}

/// Decides the state for a level-list request, like [`process_level`].
pub(crate) fn process_levels(cache: &mut GdcfCache, request: LevelsRequest, now: u64) -> (s:
    ProcessRequestFutureState<LevelsRequest>)
    requires
        old(cache).wf(),
    ensures
        final(cache).wf(),
        final(cache).expiry_spec() == old(cache).expiry_spec(),
        selection(
            s,
            old(cache).level_list_entry(fp_view(request)),
            request,
            entry_expired(
                old(cache).level_list_entry(fp_view(request)),
                old(cache).expiry_spec(),
                now,
            ),
        ),
        match s {
            ProcessRequestFutureState::Uncached(fut) => refresh_started(
                *old(cache),
                *final(cache),
                fut,
                request,
            ),
            ProcessRequestFutureState::Outdated(_, fut) => refresh_started(
                *old(cache),
                *final(cache),
                fut,
                request,
            ),
            ProcessRequestFutureState::UpToDate(_, _) => *final(cache) == *old(cache),
        },
{
    let fp = request.fingerprint();
    let entry = cache.lookup_level_list(&fp);
    if entry.is_missing() {
        let leader = cache.register_refresh(fp);
        ProcessRequestFutureState::Uncached(RefreshCacheFuture { request, leader })
    } else {
        let expired = cache.is_entry_expired(&*entry, now);
        let force = request.forces_refresh();
        if expired || force {
            let leader = cache.register_refresh(fp);
            ProcessRequestFutureState::Outdated(entry, RefreshCacheFuture { request, leader })
        } else {
            ProcessRequestFutureState::UpToDate(Some(entry), request)
        }
    }
}

/// What one poll of a process-request future yields: the resolved entry, or
/// the future handed back to try again once the refresh can make progress.
pub enum GdcfPoll<R: Request> {
    Ready(Arc<CacheEntry<R::Result>>),
    Pending(ProcessRequestFuture<R>),
}

/// The future behind `Gdcf::level` and `Gdcf::levels`: the state machine
/// that serves a request from the cache, refreshing it when needed.
pub struct ProcessRequestFuture<R: Request> {
    pub(crate) forces_refresh: bool,
    pub(crate) state: ProcessRequestFutureState<R>,
}

impl<R: Request> ProcessRequestFuture<R> {
    /// The state the future is in.
    pub closed spec fn state_spec(self) -> ProcessRequestFutureState<R> {
        self.state
    }

    /// Whether the request behind this future forces a refresh.
    pub closed spec fn forces_refresh_spec(self) -> bool {
        self.forces_refresh
    }

    /// Exposes the field view of the future to sibling modules of the
    /// crate.
    pub(crate) proof fn reveal_parts(self)
        ensures
            self.forces_refresh_spec() == self.forces_refresh,
            self.state_spec() == self.state,
    {
    }

    /// A future that already yielded its up-to-date entry; polling it again
    /// is a caller error.
    pub open spec fn exhausted(self) -> bool {
        self.state_spec() matches ProcessRequestFutureState::UpToDate(None, _)
    }

    /// Whether this future's poll consumes an API response: true exactly for
    /// the holder of a leader refresh token.
    pub open spec fn awaits_response(self) -> bool {
        match self.state_spec() {
            ProcessRequestFutureState::Uncached(fut) => fut.is_leader(),
            ProcessRequestFutureState::Outdated(_, fut) => fut.is_leader(),
            ProcessRequestFutureState::UpToDate(_, _) => false,
        }
    }

    /// The request this future serves.
    pub open spec fn request_spec(self) -> R {
        match self.state_spec() {
            ProcessRequestFutureState::Uncached(fut) => fut.request_spec(),
            ProcessRequestFutureState::Outdated(_, fut) => fut.request_spec(),
            ProcessRequestFutureState::UpToDate(_, req) => req,
        }
    }

    /// Whether polling this future consumes an API response: the caller
    /// must perform the network call for [`ProcessRequestFuture::request`]
    /// exactly when this holds.
    pub fn needs_api_call(&self) -> (r: bool)
        ensures
            r == self.awaits_response(),
    {
        match &self.state {
            ProcessRequestFutureState::Uncached(fut) => fut.leader,
            ProcessRequestFutureState::Outdated(_, fut) => fut.leader,
            ProcessRequestFutureState::UpToDate(_, _) => false,
        }
    }

    /// The request this future serves.
    pub fn request(&self) -> (r: &R)
        ensures
            *r == self.request_spec(),
    {
        match &self.state {
            ProcessRequestFutureState::Uncached(fut) => &fut.request,
            ProcessRequestFutureState::Outdated(_, fut) => &fut.request,
            ProcessRequestFutureState::UpToDate(_, req) => req,
        }
    }

    /// Applies a pure transformation to the cached entry in place: the stale
    /// entry of an `Outdated` future or the fresh entry of an `UpToDate`
    /// one.  For `Uncached` futures there is nothing to transform.
    pub fn peek<F: FnOnce(Arc<CacheEntry<R::Result>>) -> Result<
        Arc<CacheEntry<R::Result>>,
        GdcfError,
    >>(self, f: F) -> (r: Result<Self, GdcfError>)
        requires
            forall|e: Arc<CacheEntry<R::Result>>| call_requires(f, (e,)),
        ensures
            match self.state_spec() {
                ProcessRequestFutureState::Outdated(e, fut) => match r {
                    Ok(fut2) => exists|e2: Arc<CacheEntry<R::Result>>|
                        {
                            &&& #[trigger] call_ensures(f, (e,), Ok(e2))
                            &&& fut2.state_spec() == ProcessRequestFutureState::Outdated(e2, fut)
                            &&& fut2.forces_refresh_spec() == self.forces_refresh_spec()
                        },
                    Err(err) => call_ensures(f, (e,), Err(err)),
                },
                ProcessRequestFutureState::UpToDate(Some(e), req) => match r {
                    Ok(fut2) => exists|e2: Arc<CacheEntry<R::Result>>|
                        {
                            &&& #[trigger] call_ensures(f, (e,), Ok(e2))
                            &&& fut2.state_spec() == ProcessRequestFutureState::UpToDate(
                                Some(e2),
                                req,
                            )
                            &&& fut2.forces_refresh_spec() == self.forces_refresh_spec()
                        },
                    Err(err) => call_ensures(f, (e,), Err(err)),
                },
                _ => r == Ok::<ProcessRequestFuture<R>, GdcfError>(self),
            },
    {
        let ProcessRequestFuture { forces_refresh, state } = self;
        match state {
            ProcessRequestFutureState::Outdated(entry, fut) => match f(entry) {
                Ok(e2) => Ok(
                    ProcessRequestFuture {
                        forces_refresh,
                        state: ProcessRequestFutureState::Outdated(e2, fut),
                    },
                ),
                Err(err) => Err(err),
            },
            ProcessRequestFutureState::UpToDate(Some(entry), req) => match f(entry) {
                Ok(e2) => Ok(
                    ProcessRequestFuture {
                        forces_refresh,
                        state: ProcessRequestFutureState::UpToDate(Some(e2), req),
                    },
                ),
                Err(err) => Err(err),
            },
            s => Ok(ProcessRequestFuture { forces_refresh, state: s }),
        }
    }
}

/// What resolving a level refresh with `response` at `now` does to the
/// cache: a success is stored, a confirmed-empty response is marked absent,
/// any other API failure leaves every entry untouched.  Either way the
/// fingerprint's refresh is no longer in flight, and no other key or store
/// is affected.
pub open spec fn level_refresh_cache_effect(
    before: GdcfCache,
    after: GdcfCache,
    request: LevelRequest,
    response: Result<Level<Option<u64>, u64>, ApiError>,
    now: u64,
) -> bool {
    let k = fp_view(request);
    &&& !after.is_in_flight(k)
    &&& (forall|k2: (u64, Seq<(u64, Seq<u64>)>)|
        k2 != k ==> #[trigger] after.is_in_flight(k2) == before.is_in_flight(k2))
    &&& after.expiry_spec() == before.expiry_spec()
    &&& (forall|kx: (u64, Seq<(u64, Seq<u64>)>)|
        #[trigger] after.level_list_entry(kx) == before.level_list_entry(kx))
    &&& (forall|idx: u64| #[trigger] after.song_entry(idx) == before.song_entry(idx))
    &&& (forall|idx: u64| #[trigger] after.creator_entry(idx) == before.creator_entry(idx))
    &&& (forall|k2: (u64, Seq<(u64, Seq<u64>)>)|
        k2 != k ==> #[trigger] after.level_entry(k2) == before.level_entry(k2))
    &&& match response {
        Ok(level) => after.level_entry(k) == GdcfCache::written_entry(
            before.level_entry(k),
            CacheEntry::Cached(level, CacheEntryMeta { stored_at: now, is_absent: false }),
            now,
        ),
        Err(ApiError::NoData) => after.level_entry(k) == GdcfCache::written_entry(
            before.level_entry(k),
            CacheEntry::MarkedAbsent(CacheEntryMeta { stored_at: now, is_absent: true }),
            now,
        ),
        Err(_) => after.level_entry(k) == before.level_entry(k),
    }
}

/// Resolves a leader level refresh: applies the response to the cache and
/// yields the entry the cache now holds, or surfaces the API failure.
pub fn resolve_level_refresh(
    cache: &mut GdcfCache,
    fut: RefreshCacheFuture<LevelRequest>,
    response: Result<Level<Option<u64>, u64>, ApiError>,
    now: u64,
) -> (r: Result<Arc<CacheEntry<Level<Option<u64>, u64>>>, GdcfError>)
    requires
        old(cache).wf(),
        fut.is_leader(),
    ensures
        final(cache).wf(),
        level_refresh_cache_effect(
            *old(cache),
            *final(cache),
            fut.request_spec(),
            response,
            now,
        ),
        match response {
            Ok(_) => r matches Ok(e) && *e == final(cache).level_entry(
                fp_view(fut.request_spec()),
            ),
            Err(ApiError::NoData) => r matches Ok(e) && *e == final(cache).level_entry(
                fp_view(fut.request_spec()),
            ),
            Err(e) => r == Err::<
                Arc<CacheEntry<Level<Option<u64>, u64>>>,
                GdcfError,
            >(GdcfError::Api(e)),
        },
{
    let fp = fut.request.fingerprint();
    let ghost k = fp_view(fut.request_spec());
    cache.finish_refresh(&fp);
    let ghost mid = *cache;
    let r = match response {
        Ok(level) => Ok(cache.store_level(fp, level, now)),
        Err(err) => {
            if err.is_no_data() {
                Ok(cache.mark_level_absent(fp, now))
            } else {
                Err(GdcfError::Api(err))
            }
        },
    };
    proof {
        assert(!mid.is_in_flight(k));
        assert forall|k2: (u64, Seq<(u64, Seq<u64>)>)|
            k2 != k implies #[trigger] cache.is_in_flight(k2) == old(cache).is_in_flight(k2) by {
            assert(mid.is_in_flight(k2) == old(cache).is_in_flight(k2));
        }
        assert(!cache.is_in_flight(k));
    }
    r
}

/// A level-list response as the remote delivers it: the page of levels and
/// the side objects — songs and creator stubs — embedded in it.
#[derive(Debug, Clone, PartialEq)]
pub struct LevelsResponse {
    pub levels: Vec<PartialLevel<Option<u64>, u64>>,
    pub songs: Vec<NewgroundsSong>,
    pub creators: Vec<Creator>,
}

/// The song a sequence of side objects leaves under `id`: the last one with
/// that id, since later writes of the same instant replace earlier ones.
pub open spec fn song_for_id(songs: Seq<NewgroundsSong>, id: u64) -> Option<NewgroundsSong>
    decreases songs.len(),
{
    if songs.len() == 0 {
        None
    } else if songs.last().song_id == id {
        Some(songs.last())
    } else {
        song_for_id(songs.drop_last(), id)
    }
}

/// The creator a sequence of side objects leaves under `id`.
pub open spec fn creator_for_id(creators: Seq<Creator>, id: u64) -> Option<Creator>
    decreases creators.len(),
{
    if creators.len() == 0 {
        None
    } else if creators.last().user_id == id {
        Some(creators.last())
    } else {
        creator_for_id(creators.drop_last(), id)
    }
}

/// What storing the side songs of a response does to the song store: every
/// id carried by the response now holds its (last) song, stored at `now`,
/// unless a strictly newer entry was already present; every other id is
/// untouched.
pub open spec fn songs_stored(
    before: GdcfCache,
    after: GdcfCache,
    songs: Seq<NewgroundsSong>,
    now: u64,
) -> bool {
    forall|id: u64|
        #[trigger] after.song_entry(id) == match song_for_id(songs, id) {
            Some(sg) => if before.song_entry(id).stored_at_or_zero() <= now {
                CacheEntry::Cached(sg, CacheEntryMeta { stored_at: now, is_absent: false })
            } else {
                before.song_entry(id)
            },
            None => before.song_entry(id),
        }
}

/// What storing the side creators of a response does to the creator store.
pub open spec fn creators_stored(
    before: GdcfCache,
    after: GdcfCache,
    creators: Seq<Creator>,
    now: u64,
) -> bool {
    forall|id: u64|
        #[trigger] after.creator_entry(id) == match creator_for_id(creators, id) {
            Some(c) => if before.creator_entry(id).stored_at_or_zero() <= now {
                CacheEntry::Cached(c, CacheEntryMeta { stored_at: now, is_absent: false })
            } else {
                before.creator_entry(id)
            },
            None => before.creator_entry(id),
        }
}

fn store_songs(cache: &mut GdcfCache, songs: &Vec<NewgroundsSong>, now: u64)
    requires
        old(cache).wf(),
    ensures
        final(cache).wf(),
        songs_stored(*old(cache), *final(cache), songs@, now),
        forall|kx: (u64, Seq<(u64, Seq<u64>)>)|
            #[trigger] final(cache).level_entry(kx) == old(cache).level_entry(kx),
        forall|kx: (u64, Seq<(u64, Seq<u64>)>)|
            #[trigger] final(cache).level_list_entry(kx) == old(cache).level_list_entry(kx),
        forall|idx: u64|
            #[trigger] final(cache).creator_entry(idx) == old(cache).creator_entry(idx),
        final(cache).inflight_views() == old(cache).inflight_views(),
        final(cache).expiry_spec() == old(cache).expiry_spec(),
{
    let n = songs.len();
    let mut i: usize = 0;
    proof {
        assert(songs@.take(0) =~= Seq::empty());
    }
    while i < n
        invariant
            old(cache).wf(),
            cache.wf(),
            n == songs@.len(),
            i <= n,
            songs_stored(*old(cache), *cache, songs@.take(i as int), now),
            forall|kx: (u64, Seq<(u64, Seq<u64>)>)|
                #[trigger] cache.level_entry(kx) == old(cache).level_entry(kx),
            forall|kx: (u64, Seq<(u64, Seq<u64>)>)|
                #[trigger] cache.level_list_entry(kx) == old(cache).level_list_entry(kx),
            forall|idx: u64| #[trigger] cache.creator_entry(idx) == old(cache).creator_entry(idx),
            cache.inflight_views() == old(cache).inflight_views(),
            cache.expiry_spec() == old(cache).expiry_spec(),
        decreases n - i,
    {
        let ghost mid = *cache;
        let sg = songs[i].duplicate();
        let ghost sgv = sg;
        cache.store_song(sg, now);
        proof {
            assert(songs@.take(i + 1).drop_last() =~= songs@.take(i as int));
            assert(songs@.take(i + 1).last() == songs@[i as int]);
            assert forall|id: u64|
                #[trigger] cache.song_entry(id) == (match song_for_id(
                songs@.take(i + 1),
                id,
            ) {
                Some(sg2) => if old(cache).song_entry(id).stored_at_or_zero() <= now {
                    CacheEntry::Cached(sg2, CacheEntryMeta { stored_at: now, is_absent: false })
                } else {
                    old(cache).song_entry(id)
                },
                None => old(cache).song_entry(id),
            }) by {
                if id == sgv.song_id {
                    assert(song_for_id(songs@.take(i + 1), id) == Some(songs@[i as int]));
                } else {
                    assert(song_for_id(songs@.take(i + 1), id) == song_for_id(
                        songs@.take(i as int),
                        id,
                    ));
                    assert(cache.song_entry(id) == mid.song_entry(id));
                }
            }
        }
        i += 1;
    }
    proof {
        assert(songs@.take(n as int) =~= songs@);
    }
}

fn store_creators(cache: &mut GdcfCache, creators: &Vec<Creator>, now: u64)
    requires
        old(cache).wf(),
    ensures
        final(cache).wf(),
        creators_stored(*old(cache), *final(cache), creators@, now),
        forall|kx: (u64, Seq<(u64, Seq<u64>)>)|
            #[trigger] final(cache).level_entry(kx) == old(cache).level_entry(kx),
        forall|kx: (u64, Seq<(u64, Seq<u64>)>)|
            #[trigger] final(cache).level_list_entry(kx) == old(cache).level_list_entry(kx),
        forall|idx: u64| #[trigger] final(cache).song_entry(idx) == old(cache).song_entry(idx),
        final(cache).inflight_views() == old(cache).inflight_views(),
        final(cache).expiry_spec() == old(cache).expiry_spec(),
{
    let n = creators.len();
    let mut i: usize = 0;
    proof {
        assert(creators@.take(0) =~= Seq::empty());
    }
    while i < n
        invariant
            old(cache).wf(),
            cache.wf(),
            n == creators@.len(),
            i <= n,
            creators_stored(*old(cache), *cache, creators@.take(i as int), now),
            forall|kx: (u64, Seq<(u64, Seq<u64>)>)|
                #[trigger] cache.level_entry(kx) == old(cache).level_entry(kx),
            forall|kx: (u64, Seq<(u64, Seq<u64>)>)|
                #[trigger] cache.level_list_entry(kx) == old(cache).level_list_entry(kx),
            forall|idx: u64| #[trigger] cache.song_entry(idx) == old(cache).song_entry(idx),
            cache.inflight_views() == old(cache).inflight_views(),
            cache.expiry_spec() == old(cache).expiry_spec(),
        decreases n - i,
    {
        let ghost mid = *cache;
        let c = creators[i].duplicate();
        let ghost cv = c;
        cache.store_creator(c, now);
        proof {
            assert(creators@.take(i + 1).drop_last() =~= creators@.take(i as int));
            assert(creators@.take(i + 1).last() == creators@[i as int]);
            assert forall|id: u64|
                #[trigger] cache.creator_entry(id) == (match creator_for_id(
                creators@.take(i + 1),
                id,
            ) {
                Some(c2) => if old(cache).creator_entry(id).stored_at_or_zero() <= now {
                    CacheEntry::Cached(c2, CacheEntryMeta { stored_at: now, is_absent: false })
                } else {
                    old(cache).creator_entry(id)
                },
                None => old(cache).creator_entry(id),
            }) by {
                if id == cv.user_id {
                    assert(creator_for_id(creators@.take(i + 1), id) == Some(
                        creators@[i as int],
                    ));
                } else {
                    assert(creator_for_id(creators@.take(i + 1), id) == creator_for_id(
                        creators@.take(i as int),
                        id,
                    ));
                    assert(cache.creator_entry(id) == mid.creator_entry(id));
                }
            }
        }
        i += 1;
    }
    proof {
        assert(creators@.take(n as int) =~= creators@);
    }
}

/// What resolving a level-list refresh does to the cache: on success the
/// side songs and creators are stored first, then the page itself; a
/// confirmed-empty response marks the page absent; any other failure leaves
/// every store untouched.  Either way the fingerprint's refresh ends.
pub open spec fn levels_refresh_cache_effect(
    before: GdcfCache,
    after: GdcfCache,
    request: LevelsRequest,
    response: Result<LevelsResponse, ApiError>,
    now: u64,
) -> bool {
    let k = fp_view(request);
    &&& !after.is_in_flight(k)
    &&& (forall|k2: (u64, Seq<(u64, Seq<u64>)>)|
        k2 != k ==> #[trigger] after.is_in_flight(k2) == before.is_in_flight(k2))
    &&& after.expiry_spec() == before.expiry_spec()
    &&& (forall|kx: (u64, Seq<(u64, Seq<u64>)>)|
        #[trigger] after.level_entry(kx) == before.level_entry(kx))
    &&& (forall|k2: (u64, Seq<(u64, Seq<u64>)>)|
        k2 != k ==> #[trigger] after.level_list_entry(k2) == before.level_list_entry(k2))
    &&& match response {
        Ok(resp) => {
            &&& after.level_list_entry(k) == GdcfCache::written_entry(
                before.level_list_entry(k),
                CacheEntry::Cached(
                    resp.levels,
                    CacheEntryMeta { stored_at: now, is_absent: false },
                ),
                now,
            )
            &&& songs_stored(before, after, resp.songs@, now)
            &&& creators_stored(before, after, resp.creators@, now)
        },
        Err(ApiError::NoData) => {
            &&& after.level_list_entry(k) == GdcfCache::written_entry(
                before.level_list_entry(k),
                CacheEntry::MarkedAbsent(CacheEntryMeta { stored_at: now, is_absent: true }),
                now,
            )
            &&& (forall|idx: u64| #[trigger] after.song_entry(idx) == before.song_entry(idx))
            &&& (forall|idx: u64| #[trigger] after.creator_entry(idx) == before.creator_entry(idx))
        },
        Err(_) => {
            &&& after.level_list_entry(k) == before.level_list_entry(k)
            &&& (forall|idx: u64| #[trigger] after.song_entry(idx) == before.song_entry(idx))
            &&& (forall|idx: u64| #[trigger] after.creator_entry(idx) == before.creator_entry(idx))
        },
    }
}

/// Resolves a leader level-list refresh: applies the response — side
/// objects first, then the page — and yields the entry the cache now holds,
/// or surfaces the API failure.
pub fn resolve_levels_refresh(
    cache: &mut GdcfCache,
    fut: RefreshCacheFuture<LevelsRequest>,
    response: Result<LevelsResponse, ApiError>,
    now: u64,
) -> (r: Result<Arc<CacheEntry<Vec<PartialLevel<Option<u64>, u64>>>>, GdcfError>)
    requires
        old(cache).wf(),
        fut.is_leader(),
    ensures
        final(cache).wf(),
        levels_refresh_cache_effect(
            *old(cache),
            *final(cache),
            fut.request_spec(),
            response,
            now,
        ),
        match response {
            Ok(_) => r matches Ok(e) && *e == final(cache).level_list_entry(
                fp_view(fut.request_spec()),
            ),
            Err(ApiError::NoData) => r matches Ok(e) && *e == final(cache).level_list_entry(
                fp_view(fut.request_spec()),
            ),
            Err(e) => r == Err::<
                Arc<CacheEntry<Vec<PartialLevel<Option<u64>, u64>>>>,
                GdcfError,
            >(GdcfError::Api(e)),
        },
{
    let fp = fut.request.fingerprint();
    let ghost k = fp_view(fut.request_spec());
    cache.finish_refresh(&fp);
    let ghost mid = *cache;
    let r = match response {
        Ok(resp) => {
            store_songs(cache, &resp.songs, now);
            store_creators(cache, &resp.creators, now);
            Ok(cache.store_level_list(fp, resp.levels, now))
        },
        Err(err) => {
            if err.is_no_data() {
                Ok(cache.mark_level_list_absent(fp, now))
            } else {
                Err(GdcfError::Api(err))
            }
        },
    };
    proof {
        assert(!mid.is_in_flight(k));
        assert forall|k2: (u64, Seq<(u64, Seq<u64>)>)|
            k2 != k implies #[trigger] cache.is_in_flight(k2) == old(cache).is_in_flight(k2) by {
            assert(mid.is_in_flight(k2) == old(cache).is_in_flight(k2));
        }
        assert(!cache.is_in_flight(k));
    }
    r
}

impl ProcessRequestFuture<LevelRequest> {
    /// Constructs the future for a singular level request: the decision is
    /// made here, once, against the cache at time `now`.
    pub fn new(gdcf: &mut Gdcf, request: LevelRequest, now: u64) -> (r: Result<
        ProcessRequestFuture<LevelRequest>,
        crate::error::CacheError,
    >)
        requires
            old(gdcf).wf(),
        ensures
            final(gdcf).wf(),
            final(gdcf).cache_spec().expiry_spec() == old(gdcf).cache_spec().expiry_spec(),
            r matches Ok(fut) && level_future_built(
                old(gdcf).cache_spec(),
                final(gdcf).cache_spec(),
                fut,
                request,
                now,
            ),
    {
        let forces_refresh = request.forces_refresh();
        let state = process_level(&mut gdcf.cache, request, now);
        Ok(ProcessRequestFuture { forces_refresh, state })
    }

    /// Polls the future.  An `UpToDate` future yields its entry at once.  A
    /// leader refresh consumes the API response for its request when one is
    /// handed in, applying it to the cache; without one it stays pending.  A
    /// follower refresh watches the cache: it stays pending while the
    /// leader's refresh is in flight and yields whatever the cache then
    /// holds once it is over.
    pub fn poll(
        self,
        gdcf: &mut Gdcf,
        response: Option<Result<Level<Option<u64>, u64>, ApiError>>,
        now: u64,
    ) -> (r: Result<GdcfPoll<LevelRequest>, GdcfError>)
        requires
            old(gdcf).wf(),
            !self.exhausted(),
            !self.awaits_response() ==> response is None,
        ensures
            final(gdcf).wf(),
            match self.state_spec() {
                ProcessRequestFutureState::UpToDate(oe, _) => {
                    &&& *final(gdcf) == *old(gdcf)
                    &&& match oe {
                        Some(e) => r == Ok::<_, GdcfError>(GdcfPoll::<LevelRequest>::Ready(e)),
                        None => true,
                    }
                },
                ProcessRequestFutureState::Uncached(rf) => poll_refresh_outcome(
                    self,
                    rf,
                    *old(gdcf),
                    *final(gdcf),
                    response,
                    now,
                    r,
                ),
                ProcessRequestFutureState::Outdated(_, rf) => poll_refresh_outcome(
                    self,
                    rf,
                    *old(gdcf),
                    *final(gdcf),
                    response,
                    now,
                    r,
                ),
            },
    {
        let ProcessRequestFuture { forces_refresh, state } = self;
        match state {
            ProcessRequestFutureState::UpToDate(opt, req) => match opt {
                Some(e) => Ok(GdcfPoll::Ready(e)),
                None => {
                    proof {
                        assert(false);
                    }
                    Err(GdcfError::NoContent)
                },
            },
            ProcessRequestFutureState::Uncached(fut) => poll_level_refresh(
                gdcf,
                forces_refresh,
                None,
                fut,
                response,
                now,
            ),
            ProcessRequestFutureState::Outdated(entry, fut) => poll_level_refresh(
                gdcf,
                forces_refresh,
                Some(entry),
                fut,
                response,
                now,
            ),
        }
    }
}

/// What polling a refresh-backed level future yields, depending on whether
/// it leads the refresh and whether a response was handed in.
pub open spec fn poll_refresh_outcome(
    fut: ProcessRequestFuture<LevelRequest>,
    rf: RefreshCacheFuture<LevelRequest>,
    before: Gdcf,
    after: Gdcf,
    response: Option<Result<Level<Option<u64>, u64>, ApiError>>,
    now: u64,
    r: Result<GdcfPoll<LevelRequest>, GdcfError>,
) -> bool {
    let k = fp_view(rf.request_spec());
    if rf.is_leader() {
        match response {
            None => {
                &&& after == before
                &&& r == Ok::<_, GdcfError>(GdcfPoll::Pending(fut))
            },
            Some(resp) => {
                &&& level_refresh_cache_effect(
                    before.cache_spec(),
                    after.cache_spec(),
                    rf.request_spec(),
                    resp,
                    now,
                )
                &&& match resp {
                    Err(ApiError::NoData) => r matches Ok(GdcfPoll::Ready(e)) && *e
                        == after.cache_spec().level_entry(k),
                    Ok(_) => r matches Ok(GdcfPoll::Ready(e)) && *e
                        == after.cache_spec().level_entry(k),
                    Err(e) => r == Err::<GdcfPoll<LevelRequest>, GdcfError>(GdcfError::Api(e)),
                }
            },
        }
    } else {
        &&& after == before
        &&& if before.cache_spec().is_in_flight(k) {
            r == Ok::<_, GdcfError>(GdcfPoll::Pending(fut))
        } else {
            r matches Ok(GdcfPoll::Ready(e)) && *e == before.cache_spec().level_entry(k)
        }
    }
}

fn poll_level_refresh(
    gdcf: &mut Gdcf,
    forces_refresh: bool,
    stale: Option<Arc<CacheEntry<Level<Option<u64>, u64>>>>,
    fut: RefreshCacheFuture<LevelRequest>,
    response: Option<Result<Level<Option<u64>, u64>, ApiError>>,
    now: u64,
) -> (r: Result<GdcfPoll<LevelRequest>, GdcfError>)
    requires
        old(gdcf).wf(),
        !fut.is_leader() ==> response is None,
    ensures
        final(gdcf).wf(),
        poll_refresh_outcome(
            reassembled(forces_refresh, stale, fut),
            fut,
            *old(gdcf),
            *final(gdcf),
            response,
            now,
            r,
        ),
{
    let ghost self_fut = reassembled(forces_refresh, stale, fut);
    if fut.leader {
        match response {
            None => Ok(GdcfPoll::Pending(rebuild(forces_refresh, stale, fut))),
            Some(resp) => match resolve_level_refresh(&mut gdcf.cache, fut, resp, now) {
                Ok(e) => Ok(GdcfPoll::Ready(e)),
                Err(err) => Err(err),
            },
        }
    } else {
        let fp = fut.request.fingerprint();
        if gdcf.cache.refresh_in_flight(&fp) {
            Ok(GdcfPoll::Pending(rebuild(forces_refresh, stale, fut)))
        } else {
            Ok(GdcfPoll::Ready(gdcf.cache.lookup_level(&fp)))
        }
    }
}

/// The future a refresh-backed state reassembles into.
pub closed spec fn reassembled(
    forces_refresh: bool,
    stale: Option<Arc<CacheEntry<Level<Option<u64>, u64>>>>,
    fut: RefreshCacheFuture<LevelRequest>,
) -> ProcessRequestFuture<LevelRequest> {
    ProcessRequestFuture {
        forces_refresh,
        state: match stale {
            Some(e) => ProcessRequestFutureState::Outdated(e, fut),
            None => ProcessRequestFutureState::Uncached(fut),
        },
    }
}

fn rebuild(
    forces_refresh: bool,
    stale: Option<Arc<CacheEntry<Level<Option<u64>, u64>>>>,
    fut: RefreshCacheFuture<LevelRequest>,
) -> (r: ProcessRequestFuture<LevelRequest>)
    ensures
        r == reassembled(forces_refresh, stale, fut),
{
    ProcessRequestFuture {
        forces_refresh,
        state: match stale {
            Some(e) => ProcessRequestFutureState::Outdated(e, fut),
            None => ProcessRequestFutureState::Uncached(fut),
        },
    }
}


impl ProcessRequestFuture<LevelsRequest> {
    /// Constructs the future for a level-list request: the decision is made
    /// here, once, against the cache at time `now`.
    pub fn new(gdcf: &mut Gdcf, request: LevelsRequest, now: u64) -> (r: Result<
        ProcessRequestFuture<LevelsRequest>,
        crate::error::CacheError,
    >)
        requires
            old(gdcf).wf(),
        ensures
            final(gdcf).wf(),
            final(gdcf).cache_spec().expiry_spec() == old(gdcf).cache_spec().expiry_spec(),
            r matches Ok(fut) && levels_future_built(
                old(gdcf).cache_spec(),
                final(gdcf).cache_spec(),
                fut,
                request,
                now,
            ),
    {
        let forces_refresh = request.forces_refresh();
        let state = process_levels(&mut gdcf.cache, request, now);
        Ok(ProcessRequestFuture { forces_refresh, state })
    }

    /// Polls the future, like the singular variant: an `UpToDate` future
    /// yields its entry, a leader refresh consumes the response for its
    /// request, a follower watches the cache.
    pub fn poll(
        self,
        gdcf: &mut Gdcf,
        response: Option<Result<LevelsResponse, ApiError>>,
        now: u64,
    ) -> (r: Result<GdcfPoll<LevelsRequest>, GdcfError>)
        requires
            old(gdcf).wf(),
            !self.exhausted(),
            !self.awaits_response() ==> response is None,
        ensures
            final(gdcf).wf(),
            polled_levels(self, *old(gdcf), *final(gdcf), response, now, r),
    {
        let ProcessRequestFuture { forces_refresh, state } = self;
        match state {
            ProcessRequestFutureState::UpToDate(opt, req) => match opt {
                Some(e) => Ok(GdcfPoll::Ready(e)),
                None => {
                    proof {
                        assert(false);
                    }
                    Err(GdcfError::NoContent)
                },
            },
            ProcessRequestFutureState::Uncached(fut) => poll_levels_refresh(
                gdcf,
                forces_refresh,
                None,
                fut,
                response,
                now,
            ),
            ProcessRequestFutureState::Outdated(entry, fut) => poll_levels_refresh(
                gdcf,
                forces_refresh,
                Some(entry),
                fut,
                response,
                now,
            ),
        }
    }

    /// Steps a paginable future to the next page: a fresh future for the
    /// same request advanced by one page, decided against the cache now.
    pub fn next(self, gdcf: &mut Gdcf, now: u64) -> (r: Result<
        ProcessRequestFuture<LevelsRequest>,
        GdcfError,
    >)
        requires
            old(gdcf).wf(),
            self.request_spec().page < u32::MAX,
        ensures
            final(gdcf).wf(),
            final(gdcf).cache_spec().expiry_spec() == old(gdcf).cache_spec().expiry_spec(),
            r matches Ok(fut) && levels_future_built(
                old(gdcf).cache_spec(),
                final(gdcf).cache_spec(),
                fut,
                (LevelsRequest { page: (self.request_spec().page + 1) as u32, ..self.request_spec() }),
                now,
            ),
    {
        let mut request = match self.state {
            ProcessRequestFutureState::UpToDate(_, request) => request,
            ProcessRequestFutureState::Outdated(_, future) => future.request,
            ProcessRequestFutureState::Uncached(future) => future.request,
        };
        request.next();
        let forces_refresh = request.forces_refresh();
        let state = process_levels(&mut gdcf.cache, request, now);
        Ok(ProcessRequestFuture { forces_refresh, state })
    }
}


/// What constructing a singular level future at `now` guarantees.
pub open spec fn level_future_built(
    before: GdcfCache,
    after: GdcfCache,
    fut: ProcessRequestFuture<LevelRequest>,
    request: LevelRequest,
    now: u64,
) -> bool {
    &&& fut.forces_refresh_spec() == request.forces_refresh_spec()
    &&& selection(
        fut.state_spec(),
        before.level_entry(fp_view(request)),
        request,
        entry_expired(before.level_entry(fp_view(request)), before.expiry_spec(), now),
    )
    &&& match fut.state_spec() {
        ProcessRequestFutureState::Uncached(rf) => refresh_started(before, after, rf, request),
        ProcessRequestFutureState::Outdated(_, rf) => refresh_started(before, after, rf, request),
        ProcessRequestFutureState::UpToDate(_, _) => after == before,
    }
}

/// The full polling contract of a level-list future: what one poll does to
/// the handle and what it yields, by state.
pub open spec fn polled_levels(
    fut: ProcessRequestFuture<LevelsRequest>,
    before: Gdcf,
    after: Gdcf,
    response: Option<Result<LevelsResponse, ApiError>>,
    now: u64,
    r: Result<GdcfPoll<LevelsRequest>, GdcfError>,
) -> bool {
    match fut.state_spec() {
        ProcessRequestFutureState::UpToDate(oe, _) => {
            &&& after == before
            &&& match oe {
                Some(e) => r == Ok::<_, GdcfError>(GdcfPoll::<LevelsRequest>::Ready(e)),
                None => true,
            }
        },
        ProcessRequestFutureState::Uncached(rf) => poll_levels_refresh_outcome(
            fut,
            rf,
            before,
            after,
            response,
            now,
            r,
        ),
        ProcessRequestFutureState::Outdated(_, rf) => poll_levels_refresh_outcome(
            fut,
            rf,
            before,
            after,
            response,
            now,
            r,
        ),
    }
}

/// What constructing a level-list future at `now` guarantees: the selection
/// table against the entry under the request's fingerprint, and the refresh
/// bookkeeping where a refresh was started.
pub open spec fn levels_future_built(
    before: GdcfCache,
    after: GdcfCache,
    fut: ProcessRequestFuture<LevelsRequest>,
    request: LevelsRequest,
    now: u64,
) -> bool {
    &&& fut.forces_refresh_spec() == request.forces_refresh_spec()
    &&& selection(
        fut.state_spec(),
        before.level_list_entry(fp_view(request)),
        request,
        entry_expired(before.level_list_entry(fp_view(request)), before.expiry_spec(), now),
    )
    &&& match fut.state_spec() {
        ProcessRequestFutureState::Uncached(rf) => refresh_started(before, after, rf, request),
        ProcessRequestFutureState::Outdated(_, rf) => refresh_started(before, after, rf, request),
        ProcessRequestFutureState::UpToDate(_, _) => after == before,
    }
}

/// What polling a refresh-backed level-list future yields.
pub open spec fn poll_levels_refresh_outcome(
    fut: ProcessRequestFuture<LevelsRequest>,
    rf: RefreshCacheFuture<LevelsRequest>,
    before: Gdcf,
    after: Gdcf,
    response: Option<Result<LevelsResponse, ApiError>>,
    now: u64,
    r: Result<GdcfPoll<LevelsRequest>, GdcfError>,
) -> bool {
    let k = fp_view(rf.request_spec());
    if rf.is_leader() {
        match response {
            None => {
                &&& after == before
                &&& r == Ok::<_, GdcfError>(GdcfPoll::Pending(fut))
            },
            Some(resp) => {
                &&& levels_refresh_cache_effect(
                    before.cache_spec(),
                    after.cache_spec(),
                    rf.request_spec(),
                    resp,
                    now,
                )
                &&& match resp {
                    Err(ApiError::NoData) => r matches Ok(GdcfPoll::Ready(e)) && *e
                        == after.cache_spec().level_list_entry(k),
                    Ok(_) => r matches Ok(GdcfPoll::Ready(e)) && *e
                        == after.cache_spec().level_list_entry(k),
                    Err(e) => r == Err::<GdcfPoll<LevelsRequest>, GdcfError>(GdcfError::Api(e)),
                }
            },
        }
    } else {
        &&& after == before
        &&& if before.cache_spec().is_in_flight(k) {
            r == Ok::<_, GdcfError>(GdcfPoll::Pending(fut))
        } else {
            r matches Ok(GdcfPoll::Ready(e)) && *e == before.cache_spec().level_list_entry(k)
        }
    }
}

fn poll_levels_refresh(
    gdcf: &mut Gdcf,
    forces_refresh: bool,
    stale: Option<Arc<CacheEntry<Vec<PartialLevel<Option<u64>, u64>>>>>,
    fut: RefreshCacheFuture<LevelsRequest>,
    response: Option<Result<LevelsResponse, ApiError>>,
    now: u64,
) -> (r: Result<GdcfPoll<LevelsRequest>, GdcfError>)
    requires
        old(gdcf).wf(),
        !fut.is_leader() ==> response is None,
    ensures
        final(gdcf).wf(),
        poll_levels_refresh_outcome(
            reassembled_levels(forces_refresh, stale, fut),
            fut,
            *old(gdcf),
            *final(gdcf),
            response,
            now,
            r,
        ),
{
    if fut.leader {
        match response {
            None => Ok(GdcfPoll::Pending(rebuild_levels(forces_refresh, stale, fut))),
            Some(resp) => match resolve_levels_refresh(&mut gdcf.cache, fut, resp, now) {
                Ok(e) => Ok(GdcfPoll::Ready(e)),
                Err(err) => Err(err),
            },
        }
    } else {
        let fp = fut.request.fingerprint();
        if gdcf.cache.refresh_in_flight(&fp) {
            Ok(GdcfPoll::Pending(rebuild_levels(forces_refresh, stale, fut)))
        } else {
            Ok(GdcfPoll::Ready(gdcf.cache.lookup_level_list(&fp)))
        }
    }
}

/// The level-list future a refresh-backed state reassembles into.
pub closed spec fn reassembled_levels(
    forces_refresh: bool,
    stale: Option<Arc<CacheEntry<Vec<PartialLevel<Option<u64>, u64>>>>>,
    fut: RefreshCacheFuture<LevelsRequest>,
) -> ProcessRequestFuture<LevelsRequest> {
    ProcessRequestFuture {
        forces_refresh,
        state: match stale {
            Some(e) => ProcessRequestFutureState::Outdated(e, fut),
            None => ProcessRequestFutureState::Uncached(fut),
        },
    }
}

fn rebuild_levels(
    forces_refresh: bool,
    stale: Option<Arc<CacheEntry<Vec<PartialLevel<Option<u64>, u64>>>>>,
    fut: RefreshCacheFuture<LevelsRequest>,
) -> (r: ProcessRequestFuture<LevelsRequest>)
    ensures
        r == reassembled_levels(forces_refresh, stale, fut),
{
    ProcessRequestFuture {
        forces_refresh,
        state: match stale {
            Some(e) => ProcessRequestFutureState::Outdated(e, fut),
            None => ProcessRequestFutureState::Uncached(fut),
        },
    }
}

/// Abandons a future without resolving it, as dropping it mid-refresh
/// would: a held leader refresh is ended so that sibling callers are never
/// blocked on an abandoned fingerprint, and the cache entries themselves
/// are untouched.
pub fn abandon_level_future(gdcf: &mut Gdcf, fut: ProcessRequestFuture<LevelRequest>)
    requires
        old(gdcf).wf(),
    ensures
        final(gdcf).wf(),
        fut.awaits_response() ==> !final(gdcf).cache_spec().is_in_flight(
            fp_view(fut.request_spec()),
        ),
        !fut.awaits_response() ==> *final(gdcf) == *old(gdcf),
        forall|k2: (u64, Seq<(u64, Seq<u64>)>)|
            k2 != fp_view(fut.request_spec()) ==> #[trigger] final(gdcf).cache_spec().is_in_flight(
                k2,
            ) == old(gdcf).cache_spec().is_in_flight(k2),
        forall|kx: (u64, Seq<(u64, Seq<u64>)>)|
            #[trigger] final(gdcf).cache_spec().level_entry(kx) == old(
                gdcf,
            ).cache_spec().level_entry(kx),
        forall|kx: (u64, Seq<(u64, Seq<u64>)>)|
            #[trigger] final(gdcf).cache_spec().level_list_entry(kx) == old(
                gdcf,
            ).cache_spec().level_list_entry(kx),
        forall|idx: u64|
            #[trigger] final(gdcf).cache_spec().song_entry(idx) == old(
                gdcf,
            ).cache_spec().song_entry(idx),
        forall|idx: u64|
            #[trigger] final(gdcf).cache_spec().creator_entry(idx) == old(
                gdcf,
            ).cache_spec().creator_entry(idx),
        final(gdcf).cache_spec().expiry_spec() == old(gdcf).cache_spec().expiry_spec(),
{
    let refresh = match fut.state {
        ProcessRequestFutureState::UpToDate(_, _) => None,
        ProcessRequestFutureState::Outdated(_, future) => Some(future),
        ProcessRequestFutureState::Uncached(future) => Some(future),
    };
    match refresh {
        Some(future) => {
            if future.leader {
                let fp = future.request.fingerprint();
                gdcf.cache.finish_refresh(&fp);
            }
        },
        None => {},
    }
}

} // verus!
