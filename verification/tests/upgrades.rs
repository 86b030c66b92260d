//! The upgrade relation as pure value transforms: upgrades embed the
//! dependency, downgrades recover exactly the thin form and the upgrade —
//! the roundtrip is lossless.

use std::sync::Arc;

use gdcf::model::{
    change_level_song, change_level_user, change_partial_level_song, change_partial_level_user,
    Creator, Featured, GameVersion, Level, LevelLength, LevelRating, NewgroundsSong,
    PartialLevel, Password,
};
use gdcf::upgrade::Upgradable;

fn partial(id: u64, song: Option<u64>, creator: u64) -> PartialLevel<Option<u64>, u64> {
    PartialLevel {
        level_id: id,
        name: format!("level-{}", id),
        description: Some("described".to_string()),
        version: 3,
        creator,
        difficulty: LevelRating::Harder,
        downloads: 12,
        main_song: None,
        gd_version: GameVersion::Version { minor: 1, major: 2 },
        likes: -4,
        length: LevelLength::ExtraLong,
        stars: 10,
        featured: Featured::Featured(1024),
        index_31: None,
        copy_of: Some(17),
        coin_amount: 2,
        coins_verified: true,
        stars_requested: Some(10),
        index_40: None,
        is_epic: true,
        index_43: "43".to_string(),
        object_amount: Some(5000),
        index_46: "46".to_string(),
        index_47: "47".to_string(),
        custom_song: song,
    }
}

fn level(id: u64, song: Option<u64>, creator: u64) -> Level<Option<u64>, u64> {
    Level {
        base: partial(id, song, creator),
        level_data: Arc::new(vec![9, 8, 7]),
        password: Password::PasswordCopy("123456".to_string()),
        time_since_update: "2 days".to_string(),
        time_since_upload: "3 weeks".to_string(),
        index_36: "36".to_string(),
    }
}

fn song(id: u64) -> NewgroundsSong {
    NewgroundsSong {
        song_id: id,
        name: format!("song-{}", id),
        artist: "artist".to_string(),
        filesize_bytes: 123456,
        link: format!("https://audio.example/{}", id),
    }
}

fn creator(id: u64) -> Creator {
    Creator { user_id: id, name: format!("creator-{}", id), account_id: Some(id + 1000) }
}

#[test]
fn slot_rebinding_preserves_everything_else() {
    let original = partial(1, Some(7), 11);
    let (swapped, evicted) = change_partial_level_song(original.clone(), Some(song(7)));
    assert_eq!(evicted, Some(7));
    assert_eq!(swapped.level_id, original.level_id);
    assert_eq!(swapped.name, original.name);
    assert_eq!(swapped.creator, original.creator);
    assert_eq!(swapped.custom_song, Some(song(7)));

    let (back, reupgrade) = change_partial_level_song(swapped, evicted);
    assert_eq!(back, original);
    assert_eq!(reupgrade, Some(song(7)));
}

#[test]
fn partial_level_song_roundtrip() {
    let original = partial(1, Some(7), 11);
    let upgrade = Some(song(7));
    let (upgraded, evicted): (PartialLevel<Option<NewgroundsSong>, u64>, Option<u64>) =
        original.clone().upgrade(upgrade.clone());
    let (downgraded, recovered): (PartialLevel<Option<u64>, u64>, Option<NewgroundsSong>) =
        Upgradable::downgrade(upgraded, evicted);
    assert_eq!(downgraded, original);
    assert_eq!(recovered, upgrade);
}

#[test]
fn level_song_roundtrip() {
    let original = level(2, Some(9), 13);
    let upgrade = Some(song(9));
    let (upgraded, evicted): (Level<Option<NewgroundsSong>, u64>, Option<u64>) =
        original.clone().upgrade(upgrade.clone());
    assert_eq!(upgraded.base.custom_song, upgrade);
    let (downgraded, recovered): (Level<Option<u64>, u64>, Option<NewgroundsSong>) =
        Upgradable::downgrade(upgraded, evicted);
    assert_eq!(downgraded, original);
    assert_eq!(recovered, upgrade);
}

#[test]
fn creator_roundtrip() {
    let with_song: PartialLevel<Option<NewgroundsSong>, u64> =
        change_partial_level_song(partial(3, Some(7), 21), Some(song(7))).0;
    let upgrade = Some(creator(21));
    let (upgraded, evicted): (PartialLevel<Option<NewgroundsSong>, Option<Creator>>, u64) =
        with_song.clone().upgrade(upgrade.clone());
    assert_eq!(upgraded.creator, upgrade);
    let (downgraded, recovered): (
        PartialLevel<Option<NewgroundsSong>, u64>,
        Option<Creator>,
    ) = Upgradable::downgrade(upgraded, evicted);
    assert_eq!(downgraded, with_song);
    assert_eq!(recovered, upgrade);
}

#[test]
fn partial_to_full_level_roundtrip() {
    // The fetched full level carries different slot ids than the partial
    // level being upgraded; the evicted value remembers them.
    let base = partial(5, Some(7), 11);
    let fetched = level(5, Some(8), 12);
    let (upgraded, evicted): (Level<Option<u64>, u64>, PartialLevel<Option<u64>, u64>) =
        base.clone().upgrade(fetched.clone());
    // The upgraded level carries the partial level's slots.
    assert_eq!(upgraded.base.custom_song, Some(7));
    assert_eq!(upgraded.base.creator, 11);
    let (downgraded, recovered): (PartialLevel<Option<u64>, u64>, Level<Option<u64>, u64>) =
        Upgradable::downgrade(upgraded, evicted);
    assert_eq!(downgraded, base);
    assert_eq!(recovered, fetched);
}

#[test]
fn full_level_slot_rebinding() {
    let original = level(4, Some(7), 11);
    let (swapped, old_user) = change_level_user(original.clone(), Some(creator(11)));
    assert_eq!(old_user, 11);
    assert_eq!(swapped.base.creator, Some(creator(11)));
    let (back, _) = change_level_user(swapped, old_user);
    assert_eq!(back, original);

    let (swapped, old_song) = change_level_song(original.clone(), None::<u64>);
    assert_eq!(old_song, Some(7));
    let (back, _) = change_level_song(swapped, old_song);
    assert_eq!(back, original);

    let (swapped, old_user) = change_partial_level_user(original.base.clone(), ());
    assert_eq!(old_user, 11);
    assert_eq!(swapped.creator, ());
}
