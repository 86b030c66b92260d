//! The cache protocol at its boundaries: single-flight refreshes, monotone
//! writes, sticky absences, forced refreshes, and abandoned futures.

use std::sync::Arc;

use gdcf::Gdcf;
use gdcf::cache::{CacheEntry, GdcfCache};
use gdcf::error::{ApiError, GdcfError};
use gdcf::future::{abandon_level_future, GdcfPoll};
use gdcf::model::{
    Featured, GameVersion, Level, LevelLength, LevelRating, PartialLevel, Password,
};
use gdcf::request::{LevelRequest, Request};

fn partial(id: u64, song: Option<u64>, creator: u64) -> PartialLevel<Option<u64>, u64> {
    PartialLevel {
        level_id: id,
        name: format!("level-{}", id),
        description: None,
        version: 1,
        creator,
        difficulty: LevelRating::Easy,
        downloads: 0,
        main_song: None,
        gd_version: GameVersion::Version { minor: 1, major: 2 },
        likes: 0,
        length: LevelLength::Short,
        stars: 0,
        featured: Featured::NotFeatured,
        index_31: None,
        copy_of: None,
        coin_amount: 0,
        coins_verified: false,
        stars_requested: None,
        index_40: None,
        is_epic: false,
        index_43: String::new(),
        object_amount: None,
        index_46: String::new(),
        index_47: String::new(),
        custom_song: song,
    }
}

fn level(id: u64, song: Option<u64>, creator: u64) -> Level<Option<u64>, u64> {
    Level {
        base: partial(id, song, creator),
        level_data: Arc::new(vec![1, 2, 3]),
        password: Password::NoCopy,
        time_since_update: "1 day".to_string(),
        time_since_upload: "1 week".to_string(),
        index_36: String::new(),
    }
}

#[test]
fn single_flight_refresh() {
    let mut gdcf = Gdcf::new(GdcfCache::new(60));
    // The first caller for a fingerprint leads the refresh.
    let leader = gdcf.level(LevelRequest::new(42), 0).unwrap();
    assert!(leader.needs_api_call());
    // A second caller for the same fingerprint does not: it follows the
    // leader's refresh through the cache.
    let follower = gdcf.level(LevelRequest::new(42), 0).unwrap();
    assert!(!follower.needs_api_call());
    // While the refresh is in flight the follower stays pending.
    let follower = match follower.poll(&mut gdcf, None, 0).unwrap() {
        GdcfPoll::Pending(f) => f,
        GdcfPoll::Ready(_) => panic!("the follower cannot resolve before the leader"),
    };
    // Once the leader's write lands, the follower observes it.
    let _ = leader.poll(&mut gdcf, Some(Ok(level(42, None, 1))), 0).unwrap();
    match follower.poll(&mut gdcf, None, 0).unwrap() {
        GdcfPoll::Ready(entry) => assert!(matches!(&*entry, CacheEntry::Cached(_, _))),
        GdcfPoll::Pending(_) => panic!("the follower must observe the leader's write"),
    }
    // A different fingerprint is unaffected by the single-flight rule.
    let other = gdcf.level(LevelRequest::new(43), 0).unwrap();
    assert!(other.needs_api_call());
}

#[test]
fn stored_at_is_monotone() {
    let mut gdcf = Gdcf::new(GdcfCache::new(60));
    let fut = gdcf.level(LevelRequest::new(42), 100).unwrap();
    let _ = fut.poll(&mut gdcf, Some(Ok(level(42, None, 1))), 100).unwrap();

    // A write carrying an older timestamp never replaces the newer entry.
    let mut request = LevelRequest::new(42);
    request.set_force_refresh(true);
    let fut2 = gdcf.level(request, 50).unwrap();
    assert!(fut2.needs_api_call());
    let mut older = level(42, None, 1);
    older.base.downloads = 77;
    let _ = fut2.poll(&mut gdcf, Some(Ok(older)), 50).unwrap();

    let fp = LevelRequest::new(42).fingerprint();
    match &*gdcf.cache().lookup_level(&fp) {
        CacheEntry::Cached(l, meta) => {
            assert_eq!(meta.stored_at, 100);
            assert_eq!(l.base.downloads, 0);
        },
        _ => panic!("expected the newer entry to survive"),
    }
}

#[test]
fn fresh_absence_is_served_without_a_call() {
    let mut gdcf = Gdcf::new(GdcfCache::new(60));
    let fut = gdcf.level(LevelRequest::new(7), 0).unwrap();
    let _ = fut.poll(&mut gdcf, Some(Err(ApiError::NoData)), 0).unwrap();

    let fut2 = gdcf.level(LevelRequest::new(7), 59).unwrap();
    assert!(!fut2.needs_api_call());
    match fut2.poll(&mut gdcf, None, 59).unwrap() {
        GdcfPoll::Ready(entry) => assert!(matches!(&*entry, CacheEntry::MarkedAbsent(_))),
        GdcfPoll::Pending(_) => panic!("a fresh absence answers immediately"),
    }

    // Once expired, the absence no longer answers: a refresh starts.
    let fut3 = gdcf.level(LevelRequest::new(7), 61).unwrap();
    assert!(fut3.needs_api_call());
}

#[test]
fn force_refresh_never_serves_up_to_date() {
    let mut gdcf = Gdcf::new(GdcfCache::new(60));
    let fut = gdcf.level(LevelRequest::new(42), 0).unwrap();
    let _ = fut.poll(&mut gdcf, Some(Ok(level(42, None, 1))), 0).unwrap();

    // The entry is perfectly fresh, yet the forced request refreshes.
    let mut request = LevelRequest::new(42);
    request.set_force_refresh(true);
    let forced = gdcf.level(request, 1).unwrap();
    assert!(forced.needs_api_call());

    // The stale value is still peekable, as an outdated state.
    let forced = forced
        .peek(|entry| {
            assert!(matches!(&*entry, CacheEntry::Cached(_, _)));
            Ok(entry)
        })
        .unwrap();
    let mut fresh = level(42, None, 1);
    fresh.base.likes = 5;
    match forced.poll(&mut gdcf, Some(Ok(fresh)), 1).unwrap() {
        GdcfPoll::Ready(entry) => match &*entry {
            CacheEntry::Cached(l, _) => assert_eq!(l.base.likes, 5),
            _ => panic!("expected the refreshed level"),
        },
        GdcfPoll::Pending(_) => panic!("the forced refresh resolves with its response"),
    }
}

#[test]
fn abandoned_refresh_frees_the_fingerprint() {
    let mut gdcf = Gdcf::new(GdcfCache::new(60));
    let fut = gdcf.level(LevelRequest::new(42), 0).unwrap();
    assert!(fut.needs_api_call());
    // Dropping the future mid-refresh must never block siblings: the
    // in-flight slot is freed, the cache untouched.
    abandon_level_future(&mut gdcf, fut);
    let fp = LevelRequest::new(42).fingerprint();
    assert!(matches!(&*gdcf.cache().lookup_level(&fp), CacheEntry::Missing));
    let again = gdcf.level(LevelRequest::new(42), 0).unwrap();
    assert!(again.needs_api_call());
}

#[test]
fn api_errors_never_poison_the_cache() {
    let mut gdcf = Gdcf::new(GdcfCache::new(60));
    let fut = gdcf.level(LevelRequest::new(42), 0).unwrap();
    match fut.poll(&mut gdcf, Some(Err(ApiError::Custom(500))), 0) {
        Err(e) => assert_eq!(e, GdcfError::Api(ApiError::Custom(500))),
        Ok(_) => panic!("an API failure must surface"),
    }
    let fp = LevelRequest::new(42).fingerprint();
    assert!(matches!(&*gdcf.cache().lookup_level(&fp), CacheEntry::Missing));
    // The failed refresh is over: a later caller may start a new one.
    let again = gdcf.level(LevelRequest::new(42), 0).unwrap();
    assert!(again.needs_api_call());
}

#[test]
fn cache_reads_hand_out_value_copies() {
    let mut gdcf = Gdcf::new(GdcfCache::new(60));
    let fut = gdcf.level(LevelRequest::new(42), 0).unwrap();
    let _ = fut.poll(&mut gdcf, Some(Ok(level(42, Some(3), 9))), 0).unwrap();
    let fp = LevelRequest::new(42).fingerprint();
    let first = gdcf.cache().lookup_level(&fp);
    let second = gdcf.cache().lookup_level(&fp);
    match (&*first, &*second) {
        (CacheEntry::Cached(a, _), CacheEntry::Cached(b, _)) => assert_eq!(a, b),
        _ => panic!("expected the cached level twice"),
    }
}
