//! End-to-end scenarios over a mock client: the caller performs the network
//! calls the futures ask for and hands the responses back in.

use std::sync::Arc;

use gdcf::Gdcf;
use gdcf::cache::{CacheEntry, GdcfCache};
use gdcf::error::ApiError;
use gdcf::future::{GdcfPoll, LevelsResponse};
use gdcf::model::{
    Creator, Featured, GameVersion, Level, LevelLength, LevelRating, NewgroundsSong, PartialLevel,
    Password,
};
use gdcf::request::{LevelRequest, LevelsRequest, Request, SongFilter};
use gdcf::upgrade::{UpgradeAllPoll, UpgradePoll};
use gdcf::{GdcfStream, StreamPoll};

fn partial(id: u64, song: Option<u64>, creator: u64) -> PartialLevel<Option<u64>, u64> {
    PartialLevel {
        level_id: id,
        name: format!("level-{}", id),
        description: None,
        version: 1,
        creator,
        difficulty: LevelRating::Easy,
        downloads: 0,
        main_song: None,
        gd_version: GameVersion::Version { minor: 1, major: 2 },
        likes: 0,
        length: LevelLength::Short,
        stars: 0,
        featured: Featured::NotFeatured,
        index_31: None,
        copy_of: None,
        coin_amount: 0,
        coins_verified: false,
        stars_requested: None,
        index_40: None,
        is_epic: false,
        index_43: String::new(),
        object_amount: None,
        index_46: String::new(),
        index_47: String::new(),
        custom_song: song,
    }
}

fn level(id: u64, song: Option<u64>, creator: u64) -> Level<Option<u64>, u64> {
    Level {
        base: partial(id, song, creator),
        level_data: Arc::new(vec![1, 2, 3]),
        password: Password::NoCopy,
        time_since_update: "1 day".to_string(),
        time_since_upload: "1 week".to_string(),
        index_36: String::new(),
    }
}

fn song(id: u64) -> NewgroundsSong {
    NewgroundsSong {
        song_id: id,
        name: format!("song-{}", id),
        artist: "artist".to_string(),
        filesize_bytes: 1000,
        link: format!("https://audio.example/{}", id),
    }
}

fn ready_level(
    poll: GdcfPoll<LevelRequest>,
) -> Arc<CacheEntry<Level<Option<u64>, u64>>> {
    match poll {
        GdcfPoll::Ready(entry) => entry,
        GdcfPoll::Pending(_) => panic!("expected the future to be ready"),
    }
}

fn ready_levels(
    poll: GdcfPoll<LevelsRequest>,
) -> Arc<CacheEntry<Vec<PartialLevel<Option<u64>, u64>>>> {
    match poll {
        GdcfPoll::Ready(entry) => entry,
        GdcfPoll::Pending(_) => panic!("expected the future to be ready"),
    }
}

#[test]
fn cold_singular_fetch() {
    let mut gdcf = Gdcf::new(GdcfCache::new(60));
    let fut = gdcf.level(LevelRequest::new(42), 0).unwrap();
    assert!(fut.needs_api_call());
    assert_eq!(fut.request().level_id, 42);

    let entry = ready_level(fut.poll(&mut gdcf, Some(Ok(level(42, Some(7), 11))), 0).unwrap());
    match &*entry {
        CacheEntry::Cached(l, meta) => {
            assert_eq!(l.base.level_id, 42);
            assert_eq!(meta.stored_at, 0);
            assert!(!meta.is_absent);
        },
        _ => panic!("expected a cached level"),
    }

    let fp = LevelRequest::new(42).fingerprint();
    assert!(matches!(&*gdcf.cache().lookup_level(&fp), CacheEntry::Cached(_, _)));
    // A singular fetch populates no side stores.
    assert!(matches!(&*gdcf.cache().lookup_song(7), CacheEntry::Missing));
    assert!(matches!(&*gdcf.cache().lookup_creator(11), CacheEntry::Missing));
}

#[test]
fn warm_singular_fetch_within_expiry() {
    let mut gdcf = Gdcf::new(GdcfCache::new(60));
    let fut = gdcf.level(LevelRequest::new(42), 0).unwrap();
    let _ = fut.poll(&mut gdcf, Some(Ok(level(42, Some(7), 11))), 0).unwrap();

    let fut2 = gdcf.level(LevelRequest::new(42), 30).unwrap();
    // The mock client records no call: the future never asks for one.
    assert!(!fut2.needs_api_call());
    let entry = ready_level(fut2.poll(&mut gdcf, None, 30).unwrap());
    match &*entry {
        CacheEntry::Cached(l, meta) => {
            assert_eq!(l.base.level_id, 42);
            assert_eq!(meta.stored_at, 0);
        },
        _ => panic!("expected the cached level"),
    }
}

#[test]
fn outdated_singular_fetch() {
    let mut gdcf = Gdcf::new(GdcfCache::new(60));
    let fut = gdcf.level(LevelRequest::new(42), 0).unwrap();
    let _ = fut.poll(&mut gdcf, Some(Ok(level(42, Some(7), 11))), 0).unwrap();

    // 120 seconds later the entry has expired.
    let fut2 = gdcf.level(LevelRequest::new(42), 120).unwrap();
    assert!(fut2.needs_api_call());

    // The stale value is observable via peek before the refresh resolves.
    let fut2 = fut2
        .peek(|entry| {
            match &*entry {
                CacheEntry::Cached(l, meta) => {
                    assert_eq!(l.base.level_id, 42);
                    assert_eq!(meta.stored_at, 0);
                },
                _ => panic!("expected the stale level to be peekable"),
            }
            Ok(entry)
        })
        .unwrap();

    // Exactly one new call: the refresh for this future.
    let mut fresh = level(42, Some(7), 11);
    fresh.base.downloads = 99;
    let entry = ready_level(fut2.poll(&mut gdcf, Some(Ok(fresh)), 120).unwrap());
    match &*entry {
        CacheEntry::Cached(l, meta) => {
            assert_eq!(l.base.downloads, 99);
            assert_eq!(meta.stored_at, 120);
        },
        _ => panic!("expected the refreshed level"),
    }
}

#[test]
fn list_and_upgrade_songs() {
    let mut gdcf = Gdcf::new(GdcfCache::new(60));
    let req = LevelsRequest::default().page(0);
    let fut = gdcf.levels(req.clone(), 0).unwrap();
    assert!(fut.needs_api_call());
    let response = LevelsResponse {
        levels: vec![partial(1, Some(7), 11), partial(2, Some(7), 12), partial(3, None, 13)],
        songs: vec![song(7)],
        creators: vec![],
    };
    let _ = ready_levels(fut.poll(&mut gdcf, Some(Ok(response)), 0).unwrap());
    // The side store now carries the song embedded in the list response.
    assert!(matches!(&*gdcf.cache().lookup_song(7), CacheEntry::Cached(_, _)));

    // Upgrade the (now cached) page; everything resolves from the cache, so
    // no network call happens beyond the list itself.
    let fut2 = gdcf.levels(req, 10).unwrap();
    assert!(!fut2.needs_api_call());
    let upgrade = fut2.upgrade_all::<PartialLevel<Option<NewgroundsSong>, u64>>();
    let (inner, upgrade) = upgrade.begin();
    let entry = ready_levels(inner.poll(&mut gdcf, None, 10).unwrap());
    match upgrade.inner_resolved(gdcf.cache(), &entry).unwrap() {
        UpgradeAllPoll::Ready(CacheEntry::Cached(upgraded, _)) => {
            assert_eq!(upgraded.len(), 3);
            assert_eq!(upgraded[0].custom_song.as_ref().unwrap().song_id, 7);
            assert_eq!(upgraded[1].custom_song.as_ref().unwrap().song_id, 7);
            assert!(upgraded[2].custom_song.is_none());
        },
        _ => panic!("expected the page to upgrade from the cache"),
    }
}

#[test]
fn upgrade_requiring_second_request() {
    let mut gdcf = Gdcf::new(GdcfCache::new(60));
    let fut = gdcf.level(LevelRequest::new(42), 0).unwrap();
    let _ = fut.poll(&mut gdcf, Some(Ok(level(42, Some(9), 11))), 0).unwrap();

    // First backend call is behind us; the song is not cached, so the
    // upgrade demands a second one.
    let fut2 = gdcf.level(LevelRequest::new(42), 1).unwrap();
    assert!(!fut2.needs_api_call());
    let upgrade = fut2.upgrade::<Level<Option<NewgroundsSong>, u64>>();
    let (inner, upgrade) = upgrade.begin();
    let entry = ready_level(inner.poll(&mut gdcf, None, 1).unwrap());
    let upgrade = match upgrade.inner_resolved(gdcf.cache(), &entry).unwrap() {
        UpgradePoll::Extending(u) => u,
        UpgradePoll::Ready(_) => panic!("the upgrade cannot resolve before the song is known"),
    };

    // The demanded sub-request searches for the custom song.
    let sub_request = upgrade.pending_request().clone();
    assert_eq!(sub_request.search_filters.song, Some(SongFilter::Custom(9)));

    // Drive the sub-request through the normal cache protocol; its side
    // effects populate the song store.
    let sub = gdcf.levels(sub_request, 1).unwrap();
    assert!(sub.needs_api_call());
    let response = LevelsResponse {
        levels: vec![partial(42, Some(9), 11)],
        songs: vec![song(9)],
        creators: vec![],
    };
    let _ = ready_levels(sub.poll(&mut gdcf, Some(Ok(response)), 1).unwrap());

    match upgrade.resume(gdcf.cache()).unwrap() {
        UpgradePoll::Ready(CacheEntry::Cached(full, _)) => {
            assert_eq!(full.base.level_id, 42);
            assert_eq!(full.base.custom_song.as_ref().unwrap().song_id, 9);
        },
        _ => panic!("expected the upgrade to resolve after the sub-request"),
    }
}

#[test]
fn no_data_on_singular_request() {
    let mut gdcf = Gdcf::new(GdcfCache::new(60));
    let fut = gdcf.level(LevelRequest::new(999), 0).unwrap();
    assert!(fut.needs_api_call());
    let entry = ready_level(fut.poll(&mut gdcf, Some(Err(ApiError::NoData)), 0).unwrap());
    assert!(matches!(&*entry, CacheEntry::MarkedAbsent(_)));

    // Within the expiry window the absence is served from the cache, with
    // no network request.
    let fut2 = gdcf.level(LevelRequest::new(999), 30).unwrap();
    assert!(!fut2.needs_api_call());
    let entry2 = ready_level(fut2.poll(&mut gdcf, None, 30).unwrap());
    match &*entry2 {
        CacheEntry::MarkedAbsent(meta) => {
            assert!(meta.is_absent);
            assert_eq!(meta.stored_at, 0);
        },
        _ => panic!("expected the cached absence"),
    }
}

#[test]
fn pagination_terminates_on_no_data() {
    let mut gdcf = Gdcf::new(GdcfCache::new(60));
    let stream: GdcfStream = gdcf.levels_stream(LevelsRequest::default(), 0).unwrap();

    let page = |n: u64| LevelsResponse {
        levels: vec![partial(n, None, n)],
        songs: vec![],
        creators: vec![],
    };

    let stream = match stream.poll(&mut gdcf, Some(Ok(page(1))), 0).unwrap() {
        StreamPoll::Yielded(next, entry) => {
            assert!(matches!(&*entry, CacheEntry::Cached(_, _)));
            next
        },
        _ => panic!("the first page must be yielded"),
    };
    let stream = match stream.poll(&mut gdcf, Some(Ok(page(2))), 0).unwrap() {
        StreamPoll::Yielded(next, entry) => {
            assert!(matches!(&*entry, CacheEntry::Cached(_, _)));
            next
        },
        _ => panic!("the second page must be yielded"),
    };
    match stream.poll(&mut gdcf, Some(Err(ApiError::NoData)), 0).unwrap() {
        StreamPoll::Done => {},
        _ => panic!("the stream must end on the first no-data response"),
    }
}

#[test]
fn upgrade_fails_without_the_song() {
    let mut gdcf = Gdcf::new(GdcfCache::new(60));
    let fut = gdcf.level(LevelRequest::new(42), 0).unwrap();
    let _ = fut.poll(&mut gdcf, Some(Ok(level(42, Some(9), 11))), 0).unwrap();

    let fut2 = gdcf.level(LevelRequest::new(42), 1).unwrap();
    let upgrade = fut2.upgrade::<Level<Option<NewgroundsSong>, u64>>();
    let (inner, upgrade) = upgrade.begin();
    let entry = ready_level(inner.poll(&mut gdcf, None, 1).unwrap());
    let upgrade = match upgrade.inner_resolved(gdcf.cache(), &entry).unwrap() {
        UpgradePoll::Extending(u) => u,
        UpgradePoll::Ready(_) => panic!("the upgrade cannot resolve before the song is known"),
    };
    // Resuming without having driven the sub-request leaves the song store
    // empty, so the upgrade fails.
    match upgrade.resume(gdcf.cache()) {
        Err(e) => assert_eq!(e, gdcf::error::UpgradeError::UpgradeFailed),
        Ok(_) => panic!("the upgrade cannot succeed without the song"),
    }
}
