//! The upgrade engine: the declarative relation by which a partially-typed
//! domain object — a level holding a song id — is upgraded to a richer form
//! — the level with the song embedded — through cache-backed sub-requests,
//! and losslessly downgraded back to the thin form the cache stores.

use vstd::prelude::*;
use crate::cache::{CacheEntry, GdcfCache};
use crate::error::UpgradeError;
use crate::model::{Creator, Level, NewgroundsSong, PartialLevel};
use crate::request::{
    LevelRequest, LevelRequestType, LevelsRequest, Request, SearchFilters, SongFilter,
};
use crate::strutil::{dec_rep, u64_to_string};

verus! {

/// What a query for upgrade information decides: the upgrade is already
/// fulfillable from the cache (or trivially, when the object has no
/// dependency), or a sub-request must be issued first.
pub enum UpgradeQuery<R, U> {
    Resolved(U),
    NeedsRequest(R),
}

/// The declarative upgrade relation `Self -> Target`.
///
/// `Upgrade` is the value that fills a slot of `Self` to produce `Target`;
/// `Evicted` is the value that leaves the slot, retained so that
/// [`Upgradable::downgrade`] can losslessly reverse the step; `Request` is
/// the sub-request that procures the upgrade information when the cache
/// cannot.
pub trait Upgradable<Target>: Sized {
    type Request;

    type Upgrade;

    type Evicted;

    /// The pure upgrade transform: the upgraded value and the evicted one.
    spec fn upgrade_spec(self, u: Self::Upgrade) -> (Target, Self::Evicted);

    /// The pure downgrade transform: the thin value and the recovered
    /// upgrade.
    spec fn downgrade_spec(t: Target, e: Self::Evicted) -> (Self, Self::Upgrade);

    /// Whether the upgrade is fulfillable from the cache without a
    /// sub-request.
    spec fn query_resolves(self, cache: GdcfCache, ignore_cached: bool) -> bool;

    /// The upgrade the cache yields, when it is fulfillable.
    spec fn query_value(self, cache: GdcfCache) -> Self::Upgrade;

    /// What the demanded sub-request looks like, when the cache cannot
    /// fulfil the upgrade.
    spec fn needs_ok(self, q: Self::Request, ignore_cached: bool) -> bool;

    /// Whether the post-request lookup fulfils the upgrade.
    spec fn process_succeeds(self, cache: GdcfCache) -> bool;

    /// An exact copy of the value, so the upgrade engine can work on an
    /// owned base while the cache keeps its entry.
    fn dup_base(&self) -> (r: Self)
        ensures
            r == *self,
    ;

    /// Decides what is needed to upgrade `self`: an upgrade resolved from
    /// the cache, or the sub-request to issue.  With `ignore_cached` the
    /// cache is bypassed and a request is demanded whenever the object has
    /// a dependency at all.
    fn query_upgrade(&self, cache: &GdcfCache, ignore_cached: bool) -> (r: Result<
        UpgradeQuery<Self::Request, Self::Upgrade>,
        UpgradeError,
    >)
        ensures
            self.query_resolves(*cache, ignore_cached) ==> r == Ok::<_, UpgradeError>(
                UpgradeQuery::<Self::Request, Self::Upgrade>::Resolved(self.query_value(*cache)),
            ),
            !self.query_resolves(*cache, ignore_cached) ==> (r matches Ok(
                UpgradeQuery::NeedsRequest(q),
            ) && self.needs_ok(q, ignore_cached)),
    ;

    /// After the sub-request went through the cache protocol, performs the
    /// final cache lookup and yields the upgrade.
    fn process_query_result(&self, cache: &GdcfCache) -> (r: Result<Self::Upgrade, UpgradeError>)
        ensures
            self.process_succeeds(*cache) ==> r == Ok::<Self::Upgrade, UpgradeError>(
                self.query_value(*cache),
            ),
            !self.process_succeeds(*cache) ==> r == Err::<Self::Upgrade, UpgradeError>(
                UpgradeError::UpgradeFailed,
            ),
    ;

    /// Applies the upgrade, returning the upgraded value and the evicted
    /// slot content.
    fn upgrade(self, u: Self::Upgrade) -> (r: (Target, Self::Evicted))
        ensures
            r == self.upgrade_spec(u),
    ;

    /// Reverses an upgrade, returning the thin value and the upgrade that
    /// had been applied.
    fn downgrade(t: Target, e: Self::Evicted) -> (r: (Self, Self::Upgrade))
        ensures
            r == Self::downgrade_spec(t, e),
    ;

    /// The upgrade roundtrip law: downgrading an upgraded value recovers
    /// both the original value and the upgrade, exactly.
    proof fn lemma_upgrade_roundtrip(self, u: Self::Upgrade)
        ensures
            Self::downgrade_spec(self.upgrade_spec(u).0, self.upgrade_spec(u).1) == (self, u),
    ;
}

/// The sub-request that procures a newgrounds song: a most-liked listing
/// filtered to the song, whose side effects populate the song store.
pub open spec fn is_song_request(req: LevelsRequest, song_id: u64) -> bool {
    &&& req.request_type == LevelRequestType::MostLiked
    &&& req.search_filters == (SearchFilters {
        song: Some(SongFilter::Custom(song_id)),
        ..SearchFilters::default_spec()
    })
    &&& req.search_string@.len() == 0
    &&& req.lengths@.len() == 0
    &&& req.ratings@.len() == 0
    &&& req.demon_rating is None
    &&& req.page == 0
    &&& req.total == 0
    &&& req.force_refresh == false
}

/// The sub-request that procures a creator: a by-user listing for the
/// creator's id, whose side effects populate the creator store.
pub open spec fn is_creator_request(req: LevelsRequest, user_id: u64) -> bool {
    &&& req.request_type == LevelRequestType::User
    &&& req.search_string@ == dec_rep(user_id as nat)
    &&& req.search_filters == SearchFilters::default_spec()
    &&& req.lengths@.len() == 0
    &&& req.ratings@.len() == 0
    &&& req.demon_rating is None
    &&& req.page == 0
    &&& req.total == 0
    &&& req.force_refresh == false
}

fn make_song_request(song_id: u64) -> (r: LevelsRequest)
    ensures
        is_song_request(r, song_id),
{
    LevelsRequest::default().filter(SearchFilters::new().custom_song(song_id)).request_type(
        LevelRequestType::MostLiked,
    )
}

fn make_creator_request(user_id: u64) -> (r: LevelsRequest)
    ensures
        is_creator_request(r, user_id),
{
    LevelsRequest::default().search(u64_to_string(user_id)).request_type(LevelRequestType::User)
}

/// Whether a song slot is fulfillable from the cache: trivially when there
/// is no dependency; from a stored entry otherwise — a cached absence is a
/// valid cached answer.
pub open spec fn song_query_resolves(slot: Option<u64>, cache: GdcfCache, ignore_cached: bool) -> bool {
    match slot {
        None => true,
        Some(id) => !ignore_cached && !(cache.song_entry(id) is Missing),
    }
}

/// The song a fulfillable slot yields: the cached song, or none for a
/// confirmed absence.
pub open spec fn song_value(slot: Option<u64>, cache: GdcfCache) -> Option<NewgroundsSong> {
    match slot {
        None => None,
        Some(id) => match cache.song_entry(id) {
            CacheEntry::Cached(song, _) => Some(song),
            _ => None,
        },
    }
}

/// Whether the post-request song lookup fulfils the slot.
pub open spec fn song_process_succeeds(slot: Option<u64>, cache: GdcfCache) -> bool {
    match slot {
        None => true,
        Some(id) => !(cache.song_entry(id) is Missing),
    }
}

fn run_song_query(slot: Option<u64>, cache: &GdcfCache, ignore_cached: bool) -> (r: Result<
    UpgradeQuery<LevelsRequest, Option<NewgroundsSong>>,
    UpgradeError,
>)
    ensures
        song_query_resolves(slot, *cache, ignore_cached) ==> r == Ok::<_, UpgradeError>(
            UpgradeQuery::<LevelsRequest, Option<NewgroundsSong>>::Resolved(
                song_value(slot, *cache),
            ),
        ),
        !song_query_resolves(slot, *cache, ignore_cached) ==> (r matches Ok(
            UpgradeQuery::NeedsRequest(q),
        ) && is_song_request(q, slot->0)),
{
    match slot {
        None => Ok(UpgradeQuery::Resolved(None)),
        Some(id) => {
            if ignore_cached {
                Ok(UpgradeQuery::NeedsRequest(make_song_request(id)))
            } else {
                let entry = cache.lookup_song(id);
                match &*entry {
                    CacheEntry::Cached(song, _) => Ok(
                        UpgradeQuery::Resolved(Some(song.duplicate())),
                    ),
                    CacheEntry::MarkedAbsent(_) => Ok(UpgradeQuery::Resolved(None)),
                    CacheEntry::Missing => Ok(UpgradeQuery::NeedsRequest(make_song_request(id))),
                }
            }
        },
    }
}

fn run_song_process(slot: Option<u64>, cache: &GdcfCache) -> (r: Result<
    Option<NewgroundsSong>,
    UpgradeError,
>)
    ensures
        song_process_succeeds(slot, *cache) ==> r == Ok::<Option<NewgroundsSong>, UpgradeError>(
            song_value(slot, *cache),
        ),
        !song_process_succeeds(slot, *cache) ==> r == Err::<Option<NewgroundsSong>, UpgradeError>(
            UpgradeError::UpgradeFailed,
        ),
{
    match slot {
        None => Ok(None),
        Some(id) => {
            let entry = cache.lookup_song(id);
            match &*entry {
                CacheEntry::Cached(song, _) => Ok(Some(song.duplicate())),
                CacheEntry::MarkedAbsent(_) => Ok(None),
                CacheEntry::Missing => Err(UpgradeError::UpgradeFailed),
            }
        },
    }
}

/// Whether a creator slot is fulfillable from the cache.
pub open spec fn creator_query_resolves(
    creator_id: u64,
    cache: GdcfCache,
    ignore_cached: bool,
) -> bool {
    !ignore_cached && !(cache.creator_entry(creator_id) is Missing)
}

/// The creator a fulfillable slot yields.
pub open spec fn creator_value(creator_id: u64, cache: GdcfCache) -> Option<Creator> {
    match cache.creator_entry(creator_id) {
        CacheEntry::Cached(c, _) => Some(c),
        _ => None,
    }
}

/// Whether the post-request creator lookup fulfils the slot.
pub open spec fn creator_process_succeeds(creator_id: u64, cache: GdcfCache) -> bool {
    !(cache.creator_entry(creator_id) is Missing)
}

fn run_creator_query(creator_id: u64, cache: &GdcfCache, ignore_cached: bool) -> (r: Result<
    UpgradeQuery<LevelsRequest, Option<Creator>>,
    UpgradeError,
>)
    ensures
        creator_query_resolves(creator_id, *cache, ignore_cached) ==> r == Ok::<_, UpgradeError>(
            UpgradeQuery::<LevelsRequest, Option<Creator>>::Resolved(
                creator_value(creator_id, *cache),
            ),
        ),
        !creator_query_resolves(creator_id, *cache, ignore_cached) ==> (r matches Ok(
            UpgradeQuery::NeedsRequest(q),
        ) && is_creator_request(q, creator_id)),
{
    if ignore_cached {
        Ok(UpgradeQuery::NeedsRequest(make_creator_request(creator_id)))
    } else {
        let entry = cache.lookup_creator(creator_id);
        match &*entry {
            CacheEntry::Cached(c, _) => Ok(UpgradeQuery::Resolved(Some(c.duplicate()))),
            CacheEntry::MarkedAbsent(_) => Ok(UpgradeQuery::Resolved(None)),
            CacheEntry::Missing => Ok(UpgradeQuery::NeedsRequest(make_creator_request(creator_id))),
        }
    }
}

fn run_creator_process(creator_id: u64, cache: &GdcfCache) -> (r: Result<
    Option<Creator>,
    UpgradeError,
>)
    ensures
        creator_process_succeeds(creator_id, *cache) ==> r == Ok::<Option<Creator>, UpgradeError>(
            creator_value(creator_id, *cache),
        ),
        !creator_process_succeeds(creator_id, *cache) ==> r == Err::<
            Option<Creator>,
            UpgradeError,
        >(UpgradeError::UpgradeFailed),
{
    let entry = cache.lookup_creator(creator_id);
    match &*entry {
        CacheEntry::Cached(c, _) => Ok(Some(c.duplicate())),
        CacheEntry::MarkedAbsent(_) => Ok(None),
        CacheEntry::Missing => Err(UpgradeError::UpgradeFailed),
    }
}

/// Song upgrade of a partial level: the song id slot is exchanged for the
/// embedded newgrounds song.
impl Upgradable<PartialLevel<Option<NewgroundsSong>, u64>> for PartialLevel<Option<u64>, u64> {
    type Request = LevelsRequest;

    type Upgrade = Option<NewgroundsSong>;

    type Evicted = Option<u64>;

    open spec fn upgrade_spec(self, u: Option<NewgroundsSong>) -> (
        PartialLevel<Option<NewgroundsSong>, u64>,
        Option<u64>,
    ) {
        (self.with_song(u), self.custom_song)
    }

    open spec fn downgrade_spec(
        t: PartialLevel<Option<NewgroundsSong>, u64>,
        e: Option<u64>,
    ) -> (PartialLevel<Option<u64>, u64>, Option<NewgroundsSong>) {
        (t.with_song(e), t.custom_song)
    }

    open spec fn query_resolves(self, cache: GdcfCache, ignore_cached: bool) -> bool {
        song_query_resolves(self.custom_song, cache, ignore_cached)
    }

    open spec fn query_value(self, cache: GdcfCache) -> Option<NewgroundsSong> {
        song_value(self.custom_song, cache)
    }

    open spec fn needs_ok(self, q: LevelsRequest, ignore_cached: bool) -> bool {
        self.custom_song matches Some(id) && is_song_request(q, id)
    }

    open spec fn process_succeeds(self, cache: GdcfCache) -> bool {
        song_process_succeeds(self.custom_song, cache)
    }

    fn dup_base(&self) -> (r: Self) {
        self.duplicate()
    }

    fn query_upgrade(&self, cache: &GdcfCache, ignore_cached: bool) -> (r: Result<
        UpgradeQuery<LevelsRequest, Option<NewgroundsSong>>,
        UpgradeError,
    >) {
        run_song_query(self.custom_song, cache, ignore_cached)
    }

    fn process_query_result(&self, cache: &GdcfCache) -> (r: Result<
        Option<NewgroundsSong>,
        UpgradeError,
    >) {
        run_song_process(self.custom_song, cache)
    }

    fn upgrade(self, u: Option<NewgroundsSong>) -> (r: (
        PartialLevel<Option<NewgroundsSong>, u64>,
        Option<u64>,
    )) {
        crate::model::change_partial_level_song(self, u)
    }

    fn downgrade(t: PartialLevel<Option<NewgroundsSong>, u64>, e: Option<u64>) -> (r: (
        PartialLevel<Option<u64>, u64>,
        Option<NewgroundsSong>,
    )) {
        crate::model::change_partial_level_song(t, e)
    }

    proof fn lemma_upgrade_roundtrip(self, u: Option<NewgroundsSong>) {
    }
}

/// Song upgrade of a full level.
impl Upgradable<Level<Option<NewgroundsSong>, u64>> for Level<Option<u64>, u64> {
    type Request = LevelsRequest;

    type Upgrade = Option<NewgroundsSong>;

    type Evicted = Option<u64>;

    open spec fn upgrade_spec(self, u: Option<NewgroundsSong>) -> (
        Level<Option<NewgroundsSong>, u64>,
        Option<u64>,
    ) {
        (self.with_song(u), self.base.custom_song)
    }

    open spec fn downgrade_spec(t: Level<Option<NewgroundsSong>, u64>, e: Option<u64>) -> (
        Level<Option<u64>, u64>,
        Option<NewgroundsSong>,
    ) {
        (t.with_song(e), t.base.custom_song)
    }

    open spec fn query_resolves(self, cache: GdcfCache, ignore_cached: bool) -> bool {
        song_query_resolves(self.base.custom_song, cache, ignore_cached)
    }

    open spec fn query_value(self, cache: GdcfCache) -> Option<NewgroundsSong> {
        song_value(self.base.custom_song, cache)
    }

    open spec fn needs_ok(self, q: LevelsRequest, ignore_cached: bool) -> bool {
        self.base.custom_song matches Some(id) && is_song_request(q, id)
    }

    open spec fn process_succeeds(self, cache: GdcfCache) -> bool {
        song_process_succeeds(self.base.custom_song, cache)
    }

    fn dup_base(&self) -> (r: Self) {
        self.duplicate()
    }

    fn query_upgrade(&self, cache: &GdcfCache, ignore_cached: bool) -> (r: Result<
        UpgradeQuery<LevelsRequest, Option<NewgroundsSong>>,
        UpgradeError,
    >) {
        run_song_query(self.base.custom_song, cache, ignore_cached)
    }

    fn process_query_result(&self, cache: &GdcfCache) -> (r: Result<
        Option<NewgroundsSong>,
        UpgradeError,
    >) {
        run_song_process(self.base.custom_song, cache)
    }

    fn upgrade(self, u: Option<NewgroundsSong>) -> (r: (
        Level<Option<NewgroundsSong>, u64>,
        Option<u64>,
    )) {
        crate::model::change_level_song(self, u)
    }

    fn downgrade(t: Level<Option<NewgroundsSong>, u64>, e: Option<u64>) -> (r: (
        Level<Option<u64>, u64>,
        Option<NewgroundsSong>,
    )) {
        crate::model::change_level_song(t, e)
    }

    proof fn lemma_upgrade_roundtrip(self, u: Option<NewgroundsSong>) {
    }
}

/// Creator upgrade of a song-upgraded partial level: the creator id slot is
/// exchanged for the embedded creator stub.
impl Upgradable<PartialLevel<Option<NewgroundsSong>, Option<Creator>>> for PartialLevel<
    Option<NewgroundsSong>,
    u64,
> {
    type Request = LevelsRequest;

    type Upgrade = Option<Creator>;

    type Evicted = u64;

    open spec fn upgrade_spec(self, u: Option<Creator>) -> (
        PartialLevel<Option<NewgroundsSong>, Option<Creator>>,
        u64,
    ) {
        (self.with_user(u), self.creator)
    }

    open spec fn downgrade_spec(
        t: PartialLevel<Option<NewgroundsSong>, Option<Creator>>,
        e: u64,
    ) -> (PartialLevel<Option<NewgroundsSong>, u64>, Option<Creator>) {
        (t.with_user(e), t.creator)
    }

    open spec fn query_resolves(self, cache: GdcfCache, ignore_cached: bool) -> bool {
        creator_query_resolves(self.creator, cache, ignore_cached)
    }

    open spec fn query_value(self, cache: GdcfCache) -> Option<Creator> {
        creator_value(self.creator, cache)
    }

    open spec fn needs_ok(self, q: LevelsRequest, ignore_cached: bool) -> bool {
        is_creator_request(q, self.creator)
    }

    open spec fn process_succeeds(self, cache: GdcfCache) -> bool {
        creator_process_succeeds(self.creator, cache)
    }

    fn dup_base(&self) -> (r: Self) {
        PartialLevel {
            level_id: self.level_id,
            name: self.name.clone(),
            description: match &self.description {
                Some(s) => Some(s.clone()),
                None => None,
            },
            version: self.version,
            creator: self.creator,
            difficulty: self.difficulty,
            downloads: self.downloads,
            main_song: match &self.main_song {
                Some(m) => Some(m.duplicate()),
                None => None,
            },
            gd_version: self.gd_version,
            likes: self.likes,
            length: self.length,
            stars: self.stars,
            featured: self.featured,
            index_31: match &self.index_31 {
                Some(s) => Some(s.clone()),
                None => None,
            },
            copy_of: self.copy_of,
            coin_amount: self.coin_amount,
            coins_verified: self.coins_verified,
            stars_requested: self.stars_requested,
            index_40: match &self.index_40 {
                Some(s) => Some(s.clone()),
                None => None,
            },
            is_epic: self.is_epic,
            index_43: self.index_43.clone(),
            object_amount: self.object_amount,
            index_46: self.index_46.clone(),
            index_47: self.index_47.clone(),
            custom_song: match &self.custom_song {
                Some(s) => Some(s.duplicate()),
                None => None,
            },
        }
    }

    fn query_upgrade(&self, cache: &GdcfCache, ignore_cached: bool) -> (r: Result<
        UpgradeQuery<LevelsRequest, Option<Creator>>,
        UpgradeError,
    >) {
        run_creator_query(self.creator, cache, ignore_cached)
    }

    fn process_query_result(&self, cache: &GdcfCache) -> (r: Result<
        Option<Creator>,
        UpgradeError,
    >) {
        run_creator_process(self.creator, cache)
    }

    fn upgrade(self, u: Option<Creator>) -> (r: (
        PartialLevel<Option<NewgroundsSong>, Option<Creator>>,
        u64,
    )) {
        crate::model::change_partial_level_user(self, u)
    }

    fn downgrade(t: PartialLevel<Option<NewgroundsSong>, Option<Creator>>, e: u64) -> (r: (
        PartialLevel<Option<NewgroundsSong>, u64>,
        Option<Creator>,
    )) {
        crate::model::change_partial_level_user(t, e)
    }

    proof fn lemma_upgrade_roundtrip(self, u: Option<Creator>) {
    }
}

/// The fingerprint of the singular request for a level id, as
/// [`LevelRequest::new`] builds it.
pub open spec fn level_request_fp(level_id: u64) -> (u64, Seq<(u64, Seq<u64>)>) {
    (
        1,
        crate::request::opt_section(level_id != 0, 1, seq![level_id]) + crate::request::opt_section(
            true,
            2,
            seq![1u64],
        ) + crate::request::opt_section(false, 3, seq![1u64]),
    )
}

/// Full-level upgrade of a thin partial level: the full level is fetched by
/// a singular level request, and the partial level's slots are transplanted
/// into it; the evicted value is a thin partial level carrying the fetched
/// level's slot ids, from which the downgrade rebuilds both inputs.
impl Upgradable<Level<Option<u64>, u64>> for PartialLevel<Option<u64>, u64> {
    type Request = LevelRequest;

    type Upgrade = Level<Option<u64>, u64>;

    type Evicted = PartialLevel<Option<u64>, u64>;

    open spec fn upgrade_spec(self, u: Level<Option<u64>, u64>) -> (
        Level<Option<u64>, u64>,
        PartialLevel<Option<u64>, u64>,
    ) {
        (
            u.with_song(self.custom_song).with_user(self.creator),
            self.with_song(u.base.custom_song).with_user(u.base.creator),
        )
    }

    open spec fn downgrade_spec(t: Level<Option<u64>, u64>, e: PartialLevel<Option<u64>, u64>) -> (
        PartialLevel<Option<u64>, u64>,
        Level<Option<u64>, u64>,
    ) {
        (
            e.with_song(t.base.custom_song).with_user(t.base.creator),
            t.with_song(e.custom_song).with_user(e.creator),
        )
    }

    open spec fn query_resolves(self, cache: GdcfCache, ignore_cached: bool) -> bool {
        !ignore_cached && cache.level_entry(level_request_fp(self.level_id)) is Cached
    }

    open spec fn query_value(self, cache: GdcfCache) -> Level<Option<u64>, u64> {
        cache.level_entry(level_request_fp(self.level_id))->Cached_0
    }

    open spec fn needs_ok(self, q: LevelRequest, ignore_cached: bool) -> bool {
        q.level_id == self.level_id && q.force_refresh == ignore_cached
    }

    open spec fn process_succeeds(self, cache: GdcfCache) -> bool {
        cache.level_entry(level_request_fp(self.level_id)) is Cached
    }

    fn dup_base(&self) -> (r: Self) {
        self.duplicate()
    }

    fn query_upgrade(&self, cache: &GdcfCache, ignore_cached: bool) -> (r: Result<
        UpgradeQuery<LevelRequest, Level<Option<u64>, u64>>,
        UpgradeError,
    >) {
        let mut request = LevelRequest::new(self.level_id);
        request.set_force_refresh(ignore_cached);
        let fp = request.fingerprint();
        proof {
            assert(fp@ == level_request_fp(self.level_id));
        }
        if ignore_cached {
            Ok(UpgradeQuery::NeedsRequest(request))
        } else {
            let entry = cache.lookup_level(&fp);
            match &*entry {
                CacheEntry::Cached(level, _) => Ok(UpgradeQuery::Resolved(level.duplicate())),
                _ => Ok(UpgradeQuery::NeedsRequest(request)),
            }
        }
    }

    fn process_query_result(&self, cache: &GdcfCache) -> (r: Result<
        Level<Option<u64>, u64>,
        UpgradeError,
    >) {
        let request = LevelRequest::new(self.level_id);
        let fp = request.fingerprint();
        proof {
            assert(fp@ == level_request_fp(self.level_id));
        }
        let entry = cache.lookup_level(&fp);
        match &*entry {
            CacheEntry::Cached(level, _) => Ok(level.duplicate()),
            _ => Err(UpgradeError::UpgradeFailed),
        }
    }

    fn upgrade(self, u: Level<Option<u64>, u64>) -> (r: (
        Level<Option<u64>, u64>,
        PartialLevel<Option<u64>, u64>,
    )) {
        let (partial_level, song) = crate::model::change_partial_level_song(self, ());
        let (partial_level, user) = crate::model::change_partial_level_user(partial_level, ());

        let (level, song_id) = crate::model::change_level_song(u, song);
        let (level, creator_id) = crate::model::change_level_user(level, user);

        let partial_level = crate::model::change_partial_level_user(partial_level, creator_id).0;
        let partial_level = crate::model::change_partial_level_song(partial_level, song_id).0;

        (level, partial_level)
    }

    fn downgrade(t: Level<Option<u64>, u64>, e: PartialLevel<Option<u64>, u64>) -> (r: (
        PartialLevel<Option<u64>, u64>,
        Level<Option<u64>, u64>,
    )) {
        let (level, song) = crate::model::change_level_song(t, ());
        let (level, creator) = crate::model::change_level_user(level, ());

        let (partial_level, song_id) = crate::model::change_partial_level_song(e, song);
        let (partial_level, creator_id) = crate::model::change_partial_level_user(
            partial_level,
            creator,
        );

        let level = crate::model::change_level_user(level, creator_id).0;
        let level = crate::model::change_level_song(level, song_id).0;

        (partial_level, level)
    }

    proof fn lemma_upgrade_roundtrip(self, u: Level<Option<u64>, u64>) {
    }
}


/// The state of an upgrade future: waiting for the base value from the
/// inner cache protocol, or holding the base and the sub-request whose
/// completion will make the upgrade fulfillable.
pub enum UpgradeFutureState<R: crate::request::Request, T> where R::Result: Upgradable<T> {
    WaitingOnInner(crate::future::ProcessRequestFuture<R>),
    AwaitingBase,
    Extending(
        crate::cache::CacheEntryMeta,
        R::Result,
        <R::Result as Upgradable<T>>::Request,
    ),
}

/// What one step of an upgrade future yields: the upgraded entry, or the
/// future now extending over a sub-request the caller must drive through
/// the cache protocol.
pub enum UpgradePoll<R: crate::request::Request, T> where R::Result: Upgradable<T> {
    Ready(CacheEntry<T>),
    Extending(UpgradeFuture<R, T>),
}

/// The future behind `.upgrade()`: waits for the base value, queries the
/// upgrade against the cache, and — once fulfillable — applies the pure
/// upgrade transform to produce the richer form under the base entry's
/// metadata.
pub struct UpgradeFuture<R: crate::request::Request, T> where R::Result: Upgradable<T> {
    pub(crate) forces_refresh: bool,
    pub(crate) state: UpgradeFutureState<R, T>,
}

impl<R: crate::request::Request, T> UpgradeFuture<R, T> where R::Result: Upgradable<T> {
    /// The state the future is in.
    pub closed spec fn state_spec(self) -> UpgradeFutureState<R, T> {
        self.state
    }

    /// Whether the base request forced a refresh; the upgrade queries then
    /// bypass the cache the same way.
    pub closed spec fn forces_refresh_spec(self) -> bool {
        self.forces_refresh
    }

    /// Hands the inner future out to be driven through the cache protocol;
    /// the upgrade future then awaits the base entry the caller obtains.
    pub fn begin(self) -> (r: (crate::future::ProcessRequestFuture<R>, UpgradeFuture<R, T>))
        requires
            self.state_spec() is WaitingOnInner,
        ensures
            self.state_spec() matches UpgradeFutureState::WaitingOnInner(inner) && r.0 == inner,
            r.1.state_spec() is AwaitingBase,
            r.1.forces_refresh_spec() == self.forces_refresh_spec(),
    {
        match self.state {
            UpgradeFutureState::WaitingOnInner(inner) => (
                inner,
                UpgradeFuture {
                    forces_refresh: self.forces_refresh,
                    state: UpgradeFutureState::AwaitingBase,
                },
            ),
            _ => vstd::pervasive::unreached(),
        }
    }

    /// The sub-request a future in the extending state waits on.
    pub fn pending_request(&self) -> (r: &<R::Result as Upgradable<T>>::Request)
        requires
            self.state_spec() is Extending,
        ensures
            self.state_spec() matches UpgradeFutureState::Extending(_, _, q) && *r == q,
    {
        match &self.state {
            UpgradeFutureState::Extending(_, _, q) => q,
            _ => vstd::pervasive::unreached(),
        }
    }

    /// Feeds in the entry the inner future resolved to.  A cached absence
    /// passes through as an absent result; a cached base is queried against
    /// the cache and either upgraded at once or held while its sub-request
    /// is driven; a missing entry cannot be upgraded.
    pub fn inner_resolved(self, cache: &GdcfCache, entry: &CacheEntry<R::Result>) -> (r: Result<
        UpgradePoll<R, T>,
        UpgradeError,
    >)
        requires
            self.state_spec() is AwaitingBase,
        ensures
            match *entry {
                CacheEntry::Missing => r == Err::<UpgradePoll<R, T>, UpgradeError>(
                    UpgradeError::UpgradeFailed,
                ),
                CacheEntry::MarkedAbsent(m) => r == Ok::<UpgradePoll<R, T>, UpgradeError>(
                    UpgradePoll::Ready(CacheEntry::MarkedAbsent(m)),
                ),
                CacheEntry::Cached(base, m) => if base.query_resolves(
                    *cache,
                    self.forces_refresh_spec(),
                ) {
                    r == Ok::<UpgradePoll<R, T>, UpgradeError>(
                        UpgradePoll::Ready(
                            CacheEntry::Cached(base.upgrade_spec(base.query_value(*cache)).0, m),
                        ),
                    )
                } else {
                    r matches Ok(UpgradePoll::Extending(f2)) && {
                        &&& f2.forces_refresh_spec() == self.forces_refresh_spec()
                        &&& f2.state_spec() matches UpgradeFutureState::Extending(m2, b2, q) && m2
                            == m && b2 == base && base.needs_ok(q, self.forces_refresh_spec())
                    }
                },
            },
    {
        let forces_refresh = self.forces_refresh;
        match entry {
            CacheEntry::Missing => Err(UpgradeError::UpgradeFailed),
            CacheEntry::MarkedAbsent(m) => Ok(UpgradePoll::Ready(CacheEntry::MarkedAbsent(*m))),
            CacheEntry::Cached(base_ref, m) => {
                let base = base_ref.dup_base();
                match base.query_upgrade(cache, forces_refresh) {
                    Ok(UpgradeQuery::Resolved(u)) => {
                        let (t, _evicted) = base.upgrade(u);
                        Ok(UpgradePoll::Ready(CacheEntry::Cached(t, *m)))
                    },
                    Ok(UpgradeQuery::NeedsRequest(rq)) => Ok(
                        UpgradePoll::Extending(
                            UpgradeFuture {
                                forces_refresh,
                                state: UpgradeFutureState::Extending(*m, base, rq),
                            },
                        ),
                    ),
                    Err(e) => Err(e),
                }
            },
        }
    }

    /// Resumes an extending future after its sub-request was driven through
    /// the cache protocol: the final cache lookup yields the upgrade, and
    /// the base is upgraded; if the cache still cannot fulfil it, the
    /// upgrade has failed.
    pub fn resume(self, cache: &GdcfCache) -> (r: Result<UpgradePoll<R, T>, UpgradeError>)
        requires
            self.state_spec() is Extending,
        ensures
            self.state_spec() matches UpgradeFutureState::Extending(m, base, _) ==> if
            base.process_succeeds(*cache) {
                r == Ok::<UpgradePoll<R, T>, UpgradeError>(
                    UpgradePoll::Ready(
                        CacheEntry::Cached(base.upgrade_spec(base.query_value(*cache)).0, m),
                    ),
                )
            } else {
                r == Err::<UpgradePoll<R, T>, UpgradeError>(UpgradeError::UpgradeFailed)
            },
    {
        match self.state {
            UpgradeFutureState::Extending(m, base, _q) => match base.process_query_result(cache) {
                Ok(u) => {
                    let (t, _evicted) = base.upgrade(u);
                    Ok(UpgradePoll::Ready(CacheEntry::Cached(t, m)))
                },
                Err(e) => Err(e),
            },
            _ => vstd::pervasive::unreached(),
        }
    }
}


impl<R: crate::request::Request> crate::future::ProcessRequestFuture<R> {
    /// Wraps this future so that, once the base value is known, the upgrade
    /// relation to `T` is queried and applied before the result is
    /// delivered.
    pub fn upgrade<T>(self) -> (r: UpgradeFuture<R, T>) where R::Result: Upgradable<T>
        ensures
            r.state_spec() == UpgradeFutureState::<R, T>::WaitingOnInner(self),
            r.forces_refresh_spec() == self.forces_refresh_spec(),
    {
        proof {
            self.reveal_parts();
        }
        let forces_refresh = self.forces_refresh;
        UpgradeFuture { forces_refresh, state: UpgradeFutureState::WaitingOnInner(self) }
    }
}

/// The state of a collection upgrade: waiting for the page, or holding the
/// owned elements while their sub-requests are driven.
pub enum UpgradeAllState<T> where
    PartialLevel<Option<u64>, u64>: Upgradable<T, Request = LevelsRequest>,
 {
    WaitingOnInner(crate::future::ProcessRequestFuture<LevelsRequest>),
    AwaitingBase,
    Extending(
        crate::cache::CacheEntryMeta,
        Vec<PartialLevel<Option<u64>, u64>>,
        std::marker::PhantomData<T>,
    ),
}

/// What one step of a collection upgrade yields.
pub enum UpgradeAllPoll<T> where
    PartialLevel<Option<u64>, u64>: Upgradable<T, Request = LevelsRequest>,
 {
    Ready(CacheEntry<Vec<T>>),
    Extending(UpgradeAllFuture<T>),
}

/// The future behind `.upgrade_all()`: the upgrade relation applied to
/// every element of a level-list result.  One element that cannot be
/// upgraded fails the whole upgrade.
pub struct UpgradeAllFuture<T> where
    PartialLevel<Option<u64>, u64>: Upgradable<T, Request = LevelsRequest>,
 {
    pub(crate) forces_refresh: bool,
    pub(crate) state: UpgradeAllState<T>,
}

impl crate::future::ProcessRequestFuture<LevelsRequest> {
    /// Wraps this list future so that every element of the resolved page is
    /// upgraded to `T` before the result is delivered.
    pub fn upgrade_all<T>(self) -> (r: UpgradeAllFuture<T>) where
        PartialLevel<Option<u64>, u64>: Upgradable<T, Request = LevelsRequest>,

        ensures
            r.state_spec() == UpgradeAllState::<T>::WaitingOnInner(self),
            r.forces_refresh_spec() == self.forces_refresh_spec(),
    {
        proof {
            self.reveal_parts();
        }
        let forces_refresh = self.forces_refresh;
        UpgradeAllFuture { forces_refresh, state: UpgradeAllState::WaitingOnInner(self) }
    }
}

impl<T> UpgradeAllFuture<T> where
    PartialLevel<Option<u64>, u64>: Upgradable<T, Request = LevelsRequest>,
 {
    /// The state the future is in.
    pub closed spec fn state_spec(self) -> UpgradeAllState<T> {
        self.state
    }

    /// Whether the base request forced a refresh.
    pub closed spec fn forces_refresh_spec(self) -> bool {
        self.forces_refresh
    }

    /// Hands the inner list future out to be driven through the cache
    /// protocol; the upgrade future then awaits the page entry the caller
    /// obtains.
    pub fn begin(self) -> (r: (
        crate::future::ProcessRequestFuture<LevelsRequest>,
        UpgradeAllFuture<T>,
    ))
        requires
            self.state_spec() is WaitingOnInner,
        ensures
            self.state_spec() matches UpgradeAllState::WaitingOnInner(inner) && r.0 == inner,
            r.1.state_spec() is AwaitingBase,
            r.1.forces_refresh_spec() == self.forces_refresh_spec(),
    {
        match self.state {
            UpgradeAllState::WaitingOnInner(inner) => (
                inner,
                UpgradeAllFuture {
                    forces_refresh: self.forces_refresh,
                    state: UpgradeAllState::AwaitingBase,
                },
            ),
            _ => vstd::pervasive::unreached(),
        }
    }

    /// Feeds in the entry the inner list future resolved to.  If every
    /// element's upgrade resolves from the cache, the upgraded page is
    /// ready at once — no network call beyond the list itself; otherwise
    /// the elements are held while their sub-requests are driven.
    #[verifier::loop_isolation(false)]
    pub fn inner_resolved(self, cache: &GdcfCache, entry: &CacheEntry<
        Vec<PartialLevel<Option<u64>, u64>>,
    >) -> (r: Result<UpgradeAllPoll<T>, UpgradeError>)
        requires
            self.state_spec() is AwaitingBase,
        ensures
            match *entry {
                CacheEntry::Missing => r == Err::<UpgradeAllPoll<T>, UpgradeError>(
                    UpgradeError::UpgradeFailed,
                ),
                CacheEntry::MarkedAbsent(m) => r == Ok::<UpgradeAllPoll<T>, UpgradeError>(
                    UpgradeAllPoll::Ready(CacheEntry::MarkedAbsent(m)),
                ),
                CacheEntry::Cached(list, m) => if forall|i: int|
                    0 <= i < list@.len() ==> (#[trigger] list@[i]).query_resolves(
                        *cache,
                        self.forces_refresh_spec(),
                    ) {
                    r matches Ok(UpgradeAllPoll::Ready(res)) && res matches CacheEntry::Cached(
                        ts,
                        m2,
                    ) && m2 == m && ts@.len() == list@.len() && (forall|i: int|
                        0 <= i < list@.len() ==> #[trigger] ts@[i] == list@[i].upgrade_spec(
                            list@[i].query_value(*cache),
                        ).0)
                } else {
                    r matches Ok(UpgradeAllPoll::Extending(f2)) && {
                        &&& f2.forces_refresh_spec() == self.forces_refresh_spec()
                        &&& f2.state_spec() matches UpgradeAllState::Extending(m2, bases, _)
                            && m2 == m && bases@ == list@
                    }
                },
            },
    {
        let forces_refresh = self.forces_refresh;
        match entry {
            CacheEntry::Missing => Err(UpgradeError::UpgradeFailed),
            CacheEntry::MarkedAbsent(m) => Ok(UpgradeAllPoll::Ready(CacheEntry::MarkedAbsent(*m))),
            CacheEntry::Cached(list, m) => {
                let n = list.len();
                let mut ts: Vec<T> = Vec::new();
                let mut all_resolved = true;
                let mut bases: Vec<PartialLevel<Option<u64>, u64>> = Vec::new();
                let mut i: usize = 0;
                while i < n
                    invariant
                        n == list@.len(),
                        i <= n,
                        bases@ == list@.take(i as int),
                        all_resolved == forall|j: int|
                            0 <= j < i ==> (#[trigger] list@[j]).query_resolves(
                                *cache,
                                forces_refresh,
                            ),
                        all_resolved ==> ts@.len() == i,
                        all_resolved ==> forall|j: int|
                            0 <= j < i ==> #[trigger] ts@[j] == list@[j].upgrade_spec(
                                list@[j].query_value(*cache),
                            ).0,
                    decreases n - i,
                {
                    let base = list[i].dup_base();
                    let q = base.query_upgrade(cache, forces_refresh);
                    match q {
                        Ok(UpgradeQuery::Resolved(u)) => {
                            if all_resolved {
                                let base2 = list[i].dup_base();
                                let (t, _evicted) = base2.upgrade(u);
                                ts.push(t);
                            }
                        },
                        Ok(UpgradeQuery::NeedsRequest(_)) => {
                            all_resolved = false;
                        },
                        Err(e) => {
                            return Err(e);
                        },
                    }
                    bases.push(base);
                    proof {
                        assert(list@.take(i + 1) =~= list@.take(i as int).push(list@[i as int]));
                    }
                    i += 1;
                }
                proof {
                    assert(list@.take(n as int) =~= list@);
                }
                if all_resolved {
                    Ok(UpgradeAllPoll::Ready(CacheEntry::Cached(ts, *m)))
                } else {
                    Ok(
                        UpgradeAllPoll::Extending(
                            UpgradeAllFuture {
                                forces_refresh,
                                state: UpgradeAllState::Extending(
                                    *m,
                                    bases,
                                    std::marker::PhantomData,
                                ),
                            },
                        ),
                    )
                }
            },
        }
    }

    /// How many elements the extending future holds.
    pub fn pending_len(&self) -> (r: usize)
        requires
            self.state_spec() is Extending,
        ensures
            self.state_spec() matches UpgradeAllState::Extending(_, bases, _) && r == bases@.len(),
    {
        match &self.state {
            UpgradeAllState::Extending(_, bases, _) => bases.len(),
            _ => vstd::pervasive::unreached(),
        }
    }

    /// The sub-request still needed for the element at `i`, or nothing when
    /// that element's upgrade already resolves from the cache.  Driving each
    /// pending request through the cache protocol populates the side stores
    /// the final lookups read.
    pub fn pending_request_at(&self, cache: &GdcfCache, i: usize) -> (r: Result<
        Option<LevelsRequest>,
        UpgradeError,
    >)
        requires
            self.state_spec() matches UpgradeAllState::Extending(_, bases, _) && i < bases@.len(),
        ensures
            self.state_spec() matches UpgradeAllState::Extending(_, bases, _) ==> {
                &&& bases@[i as int].query_resolves(*cache, self.forces_refresh_spec()) ==> r
                    == Ok::<Option<LevelsRequest>, UpgradeError>(None)
                &&& !bases@[i as int].query_resolves(*cache, self.forces_refresh_spec()) ==> (
                r matches Ok(Some(q)) && bases@[i as int].needs_ok(
                    q,
                    self.forces_refresh_spec(),
                ))
            },
    {
        match &self.state {
            UpgradeAllState::Extending(_, bases, _) => {
                match bases[i].query_upgrade(cache, self.forces_refresh) {
                    Ok(UpgradeQuery::NeedsRequest(rq)) => Ok(Some(rq)),
                    Ok(UpgradeQuery::Resolved(_)) => Ok(None),
                    Err(e) => Err(e),
                }
            },
            _ => vstd::pervasive::unreached(),
        }
    }

    /// Resumes after the sub-requests were driven through the cache
    /// protocol: every element's final lookup must now yield its upgrade,
    /// else the whole upgrade fails.
    #[verifier::loop_isolation(false)]
    pub fn resume(self, cache: &GdcfCache) -> (r: Result<UpgradeAllPoll<T>, UpgradeError>)
        requires
            self.state_spec() is Extending,
        ensures
            self.state_spec() matches UpgradeAllState::Extending(m, bases, _) ==> if forall|
                i: int,
            |
                0 <= i < bases@.len() ==> (#[trigger] bases@[i]).process_succeeds(*cache) {
                r matches Ok(UpgradeAllPoll::Ready(res)) && res matches CacheEntry::Cached(ts, m2)
                    && m2 == m && ts@.len() == bases@.len() && (forall|i: int|
                    0 <= i < bases@.len() ==> #[trigger] ts@[i] == bases@[i].upgrade_spec(
                        bases@[i].query_value(*cache),
                    ).0)
            } else {
                r == Err::<UpgradeAllPoll<T>, UpgradeError>(UpgradeError::UpgradeFailed)
            },
    {
        match self.state {
            UpgradeAllState::Extending(m, bases, _) => {
                let n = bases.len();
                let mut ts: Vec<T> = Vec::new();
                let mut i: usize = 0;
                while i < n
                    invariant
                        n == bases@.len(),
                        i <= n,
                        ts@.len() == i,
                        forall|j: int|
                            0 <= j < i ==> (#[trigger] bases@[j]).process_succeeds(*cache),
                        forall|j: int|
                            0 <= j < i ==> #[trigger] ts@[j] == bases@[j].upgrade_spec(
                                bases@[j].query_value(*cache),
                            ).0,
                    decreases n - i,
                {
                    let pr = bases[i].process_query_result(cache);
                    match pr {
                        Ok(u) => {
                            let base2 = bases[i].dup_base();
                            let (t, _evicted) = base2.upgrade(u);
                            ts.push(t);
                        },
                        Err(e) => {
                            proof {
                                assert(!bases@[i as int].process_succeeds(*cache));
                            }
                            return Err(UpgradeError::UpgradeFailed);
                        },
                    }
                    i += 1;
                }
                Ok(UpgradeAllPoll::Ready(CacheEntry::Cached(ts, m)))
            },
            _ => vstd::pervasive::unreached(),
        }
    }
}

} // verus!
