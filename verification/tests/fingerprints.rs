//! Fingerprint stability: the base request data never affects a
//! fingerprint, every semantic field does, and the request builders set
//! exactly the fields they name.

use gdcf::model::{DemonRating, GameVersion, LevelLength, LevelRating};
use gdcf::request::{
    BaseRequest, LevelRequest, LevelRequestType, LevelsRequest, Request, SearchFilters,
    SongFilter,
};

fn other_base() -> BaseRequest {
    BaseRequest {
        game_version: GameVersion::Unknown,
        binary_version: GameVersion::Version { minor: 0, major: 9 },
        secret: "another".to_string(),
    }
}

#[test]
fn fingerprint_ignores_base() {
    let plain = LevelRequest::new(42);
    let rebased = LevelRequest::new(42).with_base(other_base());
    assert!(plain.fingerprint().eq_fp(&rebased.fingerprint()));

    let list = LevelsRequest::default().page(3);
    let list_rebased = LevelsRequest::default().page(3).with_base(other_base());
    assert!(list.fingerprint().eq_fp(&list_rebased.fingerprint()));
}

#[test]
fn fingerprint_ignores_force_refresh() {
    let mut forced = LevelRequest::new(42);
    forced.set_force_refresh(true);
    assert!(LevelRequest::new(42).fingerprint().eq_fp(&forced.fingerprint()));
}

#[test]
fn fingerprint_tracks_semantic_fields() {
    let base = LevelRequest::new(42);
    assert!(!base.fingerprint().eq_fp(&LevelRequest::new(43).fingerprint()));
    assert!(!base.fingerprint().eq_fp(&LevelRequest::new(42).inc(false).fingerprint()));
    assert!(!base.fingerprint().eq_fp(&LevelRequest::new(42).extra(true).fingerprint()));

    let list = LevelsRequest::default();
    assert!(!list.fingerprint().eq_fp(&list.clone().page(1).fingerprint()));
    assert!(!list.fingerprint().eq_fp(&list.clone().total(5).fingerprint()));
    assert!(!list.fingerprint().eq_fp(&list.clone().search("x".to_string()).fingerprint()));
    assert!(!list.fingerprint().eq_fp(
        &list.clone().with_length(LevelLength::Long).fingerprint(),
    ));
    assert!(!list.fingerprint().eq_fp(
        &list.clone().with_rating(LevelRating::Demon(DemonRating::Extreme)).fingerprint(),
    ));
    assert!(!list.fingerprint().eq_fp(&list.clone().demon(DemonRating::Easy).fingerprint()));
    assert!(!list.fingerprint().eq_fp(
        &list.clone().request_type(LevelRequestType::Search).fingerprint(),
    ));
    assert!(!list.fingerprint().eq_fp(
        &list.clone().filter(SearchFilters::new().rated()).fingerprint(),
    ));
}

#[test]
fn distinct_pages_are_distinct_requests() {
    let page0 = LevelsRequest::default().page(0);
    let page1 = LevelsRequest::default().page(1);
    assert!(!page0.fingerprint().eq_fp(&page1.fingerprint()));
    // Pages of different searches differ too.
    let search0 = LevelsRequest::default().search("abc".to_string()).page(1);
    assert!(!search0.fingerprint().eq_fp(&page1.fingerprint()));
}

#[test]
fn equal_requests_have_equal_fingerprints() {
    let a = LevelsRequest::default().search("abc".to_string()).page(2).filter(
        SearchFilters::new().featured().custom_song(9),
    );
    let b = LevelsRequest::default().search("abc".to_string()).page(2).filter(
        SearchFilters::new().featured().custom_song(9),
    );
    assert!(a.fingerprint().eq_fp(&b.fingerprint()));
}

#[test]
fn search_builders() {
    let req = LevelsRequest::default().with_id(42);
    assert_eq!(req.search_string, "42");
    assert_eq!(req.request_type, LevelRequestType::Search);

    let req = LevelsRequest::default().with_length(LevelLength::Tiny).with_length(
        LevelLength::Long,
    );
    assert_eq!(req.lengths, vec![LevelLength::Tiny, LevelLength::Long]);

    let req = LevelsRequest::default().demon(DemonRating::Insane);
    assert_eq!(req.demon_rating, Some(DemonRating::Insane));
}

#[test]
fn filter_builders() {
    let filters = SearchFilters::new()
        .rated()
        .uncompleted()
        .completed()
        .featured()
        .original()
        .two_player()
        .coins()
        .epic()
        .main_song(3);
    assert!(filters.rated);
    assert!(filters.uncompleted);
    assert!(filters.completed);
    assert!(filters.featured);
    assert!(filters.original);
    assert!(filters.two_player);
    assert!(filters.coins);
    assert!(filters.epic);
    assert_eq!(filters.song, Some(SongFilter::Main(3)));
    assert_eq!(SearchFilters::new().custom_song(9).song, Some(SongFilter::Custom(9)));
}

#[test]
fn request_type_codes() {
    assert_eq!(LevelRequestType::Search.code(), 0);
    assert_eq!(LevelRequestType::Featured.code(), 6);
    assert_eq!(LevelRequestType::HallOfFame.code(), 16);
}

#[test]
fn pagination_operations() {
    let mut req = LevelsRequest::default().page(4);
    assert_eq!(req.current_page(), 4);
    req.next();
    assert_eq!(req.current_page(), 5);
}
