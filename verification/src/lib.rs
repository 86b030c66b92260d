//! A caching framework for a slow, unreliable remote game API.
//!
//! The framework answers requests from a local cache when it can, refreshes
//! stale entries through an API client, and composes multi-step dependency
//! fetches so that a request for a level with its song and creator attached
//! is transparently decomposed into several backend requests joined through
//! the cache.
//!
//! The library is written sans-io: every decision — which cache entry
//! answers a request, when a refresh is due, what a response writes into the
//! cache, when a stream ends — is a verified function over plain values, and
//! the surrounding program performs the network calls and hands the results
//! back in.

use vstd::prelude::*;

pub mod backend;
pub mod cache;
pub mod error;
pub mod future;
pub mod model;
pub mod parse;
pub mod query;
pub mod request;
pub mod statement;
pub mod strutil;
pub mod upgrade;

use std::sync::Arc;
use crate::cache::{CacheEntry, GdcfCache};
use crate::error::{ApiError, CacheError, GdcfError};
use crate::future::{
    fp_view, levels_future_built, level_future_built, polled_levels, GdcfPoll, LevelsResponse,
    ProcessRequestFuture,
};
use crate::model::{GDObject, Level, PartialLevel};
use crate::request::{
    advanced_page, LevelRequest, LevelRequestType, LevelsRequest, SearchFilters, SongFilter,
};

verus! {

/// The handle a caller holds: it owns the cache; the API client stays with
/// the caller, which performs the requests the handle decides on.
pub struct Gdcf {
    pub(crate) cache: GdcfCache,
}

impl Gdcf {
    /// The cache this handle owns.
    pub closed spec fn cache_spec(self) -> GdcfCache {
        self.cache
    }

    /// The handle invariant: its cache invariant.
    pub open spec fn wf(self) -> bool {
        self.cache_spec().wf()
    }

    /// Creates a handle owning the given cache.
    pub fn new(cache: GdcfCache) -> (r: Gdcf)
        ensures
            r.cache_spec() == cache,
    {
        Gdcf { cache }
    }

    /// Read access to the cache, for lookups outside the request flow.
    pub fn cache(&self) -> (r: &GdcfCache)
        ensures
            *r == self.cache_spec(),
    {
        &self.cache
    }

    /// Serves a singular level request: decides, against the cache at `now`,
    /// whether to answer from the cache, refresh first, or serve the stale
    /// entry while refreshing.
    pub fn level(&mut self, request: LevelRequest, now: u64) -> (r: Result<
        ProcessRequestFuture<LevelRequest>,
        CacheError,
    >)
        requires
            old(self).wf(),
        ensures
            final(self).wf(),
            final(self).cache_spec().expiry_spec() == old(self).cache_spec().expiry_spec(),
            r matches Ok(fut) && level_future_built(
                old(self).cache_spec(),
                final(self).cache_spec(),
                fut,
                request,
                now,
            ),
    {
        ProcessRequestFuture::<LevelRequest>::new(self, request, now)
    }

    /// Serves a level-list request, like [`Gdcf::level`].
    pub fn levels(&mut self, request: LevelsRequest, now: u64) -> (r: Result<
        ProcessRequestFuture<LevelsRequest>,
        CacheError,
    >)
        requires
            old(self).wf(),
        ensures
            final(self).wf(),
            final(self).cache_spec().expiry_spec() == old(self).cache_spec().expiry_spec(),
            r matches Ok(fut) && levels_future_built(
                old(self).cache_spec(),
                final(self).cache_spec(),
                fut,
                request,
                now,
            ),
    {
        ProcessRequestFuture::<LevelsRequest>::new(self, request, now)
    }

    /// Opens a stream over the pages of a level-list request, starting at
    /// the page the request names.
    pub fn levels_stream(&mut self, request: LevelsRequest, now: u64) -> (r: Result<
        GdcfStream,
        CacheError,
    >)
        requires
            old(self).wf(),
            request.page < u32::MAX,
        ensures
            final(self).wf(),
            final(self).cache_spec().expiry_spec() == old(self).cache_spec().expiry_spec(),
            r matches Ok(st) && {
                &&& advanced_page(st.request_spec(), request)
                &&& levels_future_built(
                    old(self).cache_spec(),
                    final(self).cache_spec(),
                    st.current_spec(),
                    request,
                    now,
                )
            },
    {
        GdcfStream::new(self, request, now)
    }

    /// The follow-up requests needed to re-establish integrity of a
    /// response: one level search per level whose custom song is not in the
    /// cache, so that the search's side effects populate the song store.
    pub fn integrity(&self, response: &Vec<GDObject>) -> (r: Result<Vec<LevelsRequest>, GdcfError>)
        ensures
            r matches Ok(reqs) && {
                &&& reqs@.len() == needy_levels(response@, self.cache_spec()).len()
                &&& forall|j: int|
                    0 <= j < reqs@.len() ==> is_integrity_request(
                        #[trigger] reqs@[j],
                        needy_levels(response@, self.cache_spec())[j],
                    )
            },
    {
        let mut reqs: Vec<LevelsRequest> = Vec::new();
        let n = response.len();
        let mut i: usize = 0;
        proof {
            assert(response@.take(0) =~= Seq::empty());
        }
        while i < n
            invariant
                n == response@.len(),
                i <= n,
                reqs@.len() == needy_levels(response@.take(i as int), self.cache_spec()).len(),
                forall|j: int|
                    0 <= j < reqs@.len() ==> is_integrity_request(
                        #[trigger] reqs@[j],
                        needy_levels(response@.take(i as int), self.cache_spec())[j],
                    ),
            decreases n - i,
        {
            let ghost prefix = response@.take(i as int);
            let mut pushed = false;
            match &response[i] {
                GDObject::Level(level) => match level.base.custom_song {
                    Some(song_id) => {
                        let entry = self.cache.lookup_song(song_id);
                        if entry.is_missing() {
                            let req = LevelsRequest::default().with_id(level.base.level_id).filter(
                                SearchFilters::new().custom_song(song_id),
                            );
                            reqs.push(req);
                            pushed = true;
                        }
                    },
                    None => {},
                },
                _ => {},
            }
            proof {
                assert(response@.take(i + 1).drop_last() =~= response@.take(i as int));
                assert(response@.take(i + 1).last() == response@[i as int]);
                let needy_next = needy_levels(response@.take(i + 1), self.cache_spec());
                let needy_prev = needy_levels(prefix, self.cache_spec());
                if pushed {
                    assert(needy_next =~= needy_prev.push(
                        response@[i as int]->Level_0,
                    ));
                } else {
                    assert(needy_next =~= needy_prev);
                }
            }
            i += 1;
        }
        proof {
            assert(response@.take(n as int) =~= response@);
        }
        Ok(reqs)
    }
}

/// The levels of a response whose custom song is not in the song store:
/// exactly these need a follow-up request.
pub open spec fn needy_levels(objs: Seq<GDObject>, cache: GdcfCache) -> Seq<Level<Option<u64>, u64>>
    decreases objs.len(),
{
    if objs.len() == 0 {
        Seq::empty()
    } else {
        needy_levels(objs.drop_last(), cache) + (match objs.last() {
            GDObject::Level(l) => match l.base.custom_song {
                Some(id) => if cache.song_entry(id) is Missing {
                    seq![l]
                } else {
                    Seq::empty()
                },
                None => Seq::empty(),
            },
            _ => Seq::empty(),
        })
    }
}

/// The follow-up request for a level: a search for the level by id,
/// filtered to its custom song, so that the response's side objects carry
/// the song.
pub open spec fn is_integrity_request(req: LevelsRequest, level: Level<Option<u64>, u64>) -> bool {
    &&& req.request_type == LevelRequestType::Search
    &&& req.search_string@ == crate::strutil::dec_rep(level.base.level_id as nat)
    &&& match level.base.custom_song {
        Some(id) => req.search_filters == (SearchFilters {
            song: Some(SongFilter::Custom(id)),
            ..SearchFilters::default_spec()
        }),
        None => false,
    }
    &&& req.lengths@.len() == 0
    &&& req.ratings@.len() == 0
    &&& req.demon_rating is None
    &&& req.page == 0
    &&& req.total == 0
    &&& req.force_refresh == false
}

/// A lazy sequence of level-list pages: each resolved page advances the
/// request by one page and opens the next future; the stream ends cleanly
/// when the remote confirms there is no further page.
pub struct GdcfStream {
    pub(crate) request: LevelsRequest,
    pub(crate) current: ProcessRequestFuture<LevelsRequest>,
}

/// What one stream poll yields: a page and the advanced stream, the stream
/// unchanged pending its refresh, or the clean end of the stream.
pub enum StreamPoll {
    Yielded(GdcfStream, Arc<CacheEntry<Vec<PartialLevel<Option<u64>, u64>>>>),
    Pending(GdcfStream),
    Done,
}

impl GdcfStream {
    /// The request for the page after the current one.
    pub closed spec fn request_spec(self) -> LevelsRequest {
        self.request
    }

    /// The future serving the current page.
    pub closed spec fn current_spec(self) -> ProcessRequestFuture<LevelsRequest> {
        self.current
    }

    /// Opens a stream: the current future serves `request`, and the stored
    /// request names the page after it.
    pub fn new(gdcf: &mut Gdcf, request: LevelsRequest, now: u64) -> (r: Result<
        GdcfStream,
        CacheError,
    >)
        requires
            old(gdcf).wf(),
            request.page < u32::MAX,
        ensures
            final(gdcf).wf(),
            final(gdcf).cache_spec().expiry_spec() == old(gdcf).cache_spec().expiry_spec(),
            r matches Ok(st) && {
                &&& advanced_page(st.request_spec(), request)
                &&& levels_future_built(
                    old(gdcf).cache_spec(),
                    final(gdcf).cache_spec(),
                    st.current_spec(),
                    request,
                    now,
                )
            },
    {
        let mut next = request.duplicate();
        next.next();
        match ProcessRequestFuture::<LevelsRequest>::new(gdcf, request, now) {
            Ok(current) => Ok(GdcfStream { request: next, current }),
            Err(e) => Err(e),
        }
    }

    /// Whether polling the stream now consumes an API response for
    /// [`GdcfStream::current_request`].
    pub fn current_needs_api_call(&self) -> (r: bool)
        ensures
            r == self.current_spec().awaits_response(),
    {
        self.current.needs_api_call()
    }

    /// The request behind the stream's current page.
    pub fn current_request(&self) -> (r: &LevelsRequest)
        ensures
            *r == self.current_spec().request_spec(),
    {
        self.current.request()
    }

    /// Polls the stream by polling its current future.  A page that
    /// resolves to a cached value is yielded and the stream advances; a
    /// resolved absence — the remote confirmed there is no such page — ends
    /// the stream cleanly; an unresolved refresh leaves it pending.
    pub fn poll(
        self,
        gdcf: &mut Gdcf,
        response: Option<Result<LevelsResponse, ApiError>>,
        now: u64,
    ) -> (r: Result<StreamPoll, GdcfError>)
        requires
            old(gdcf).wf(),
            !self.current_spec().exhausted(),
            !self.current_spec().awaits_response() ==> response is None,
            self.request_spec().page < u32::MAX,
        ensures
            final(gdcf).wf(),
            exists|mid: Gdcf, rp: Result<GdcfPoll<LevelsRequest>, GdcfError>|
                {
                    &&& #[trigger] polled_levels(
                        self.current_spec(),
                        *old(gdcf),
                        mid,
                        response,
                        now,
                        rp,
                    )
                    &&& mid.wf()
                    &&& match rp {
                        Ok(GdcfPoll::Ready(entry)) => if *entry is Cached {
                            r matches Ok(StreamPoll::Yielded(st2, e2)) && e2 == entry
                                && advanced_page(st2.request_spec(), self.request_spec())
                                && levels_future_built(
                                mid.cache_spec(),
                                final(gdcf).cache_spec(),
                                st2.current_spec(),
                                self.request_spec(),
                                now,
                            )
                        } else {
                            &&& r == Ok::<StreamPoll, GdcfError>(StreamPoll::Done)
                            &&& *final(gdcf) == mid
                        },
                        Ok(GdcfPoll::Pending(f2)) => {
                            &&& r matches Ok(StreamPoll::Pending(st2)) && st2.current_spec() == f2
                                && st2.request_spec() == self.request_spec()
                            &&& *final(gdcf) == mid
                        },
                        Err(e) => {
                            &&& r == Err::<StreamPoll, GdcfError>(e)
                            &&& *final(gdcf) == mid
                        },
                    }
                },
    {
        let GdcfStream { request, current } = self;
        let polled = current.poll(gdcf, response, now);
        let ghost mid = *gdcf;
        let ghost rp = polled;
        match polled {
            Ok(GdcfPoll::Ready(entry)) => {
                let is_cached = matches!(&*entry, CacheEntry::Cached(_, _));
                if is_cached {
                    let mut next = request.duplicate();
                    next.next();
                    match ProcessRequestFuture::<LevelsRequest>::new(gdcf, request, now) {
                        Ok(fut) => {
                            let st2 = GdcfStream { request: next, current: fut };
                            proof {
                                assert(polled_levels(
                                    self.current_spec(),
                                    *old(gdcf),
                                    mid,
                                    response,
                                    now,
                                    rp,
                                ));
                            }
                            Ok(StreamPoll::Yielded(st2, entry))
                        },
                        Err(_) => {
                            proof {
                                assert(false);
                            }
                            Err(GdcfError::NoContent)
                        },
                    }
                } else {
                    Ok(StreamPoll::Done)
                }
            },
            Ok(GdcfPoll::Pending(fut)) => Ok(StreamPoll::Pending(GdcfStream { request, current: fut })),
            Err(e) => Err(e),
        }
    }
}

/// A paginable stream ends cleanly on the first confirmed-empty response:
/// resolving a page's leader refresh with the no-data sentinel leaves a
/// marked-absent page entry — never a cached one — so the stream's poll
/// turns it into the clean end of the stream rather than a yielded page.
/// (A cache entry stored in the future, newer than `now`, is kept instead
/// and would still be served; the ordinary monotone clock rules that out.)
pub proof fn lemma_stream_ends_on_no_data(
    fut: ProcessRequestFuture<LevelsRequest>,
    before: Gdcf,
    after: Gdcf,
    now: u64,
    rp: Result<GdcfPoll<LevelsRequest>, GdcfError>,
)
    requires
        fut.awaits_response(),
        polled_levels(fut, before, after, Some(Err(ApiError::NoData)), now, rp),
        now >= before.cache_spec().level_list_entry(
            fp_view(fut.request_spec()),
        ).stored_at_or_zero(),
    ensures
        rp matches Ok(GdcfPoll::Ready(e)) && (*e is MarkedAbsent),
{
}

} // verus!
