//! The parsing helpers against real codec crates: passwords, descriptions,
//! numeric fields, difficulty and song processing, and level data
//! decompression.

use std::io::Write;
use std::sync::Arc;

use base64::Engine;

use gdcf::model::{
    DemonRating, Featured, GameVersion, Level, LevelLength, LevelRating, PartialLevel, Password,
};
use gdcf::parse::{
    default_to_none, int_to_bool, into_option, level_password, parse_description,
    process_difficulty, process_song, parse_u64, xor_decrypt, ValueError,
};

fn b64(data: &[u8]) -> String {
    base64::engine::general_purpose::URL_SAFE.encode(data)
}

fn xor_with_key(data: &[u8]) -> Vec<u8> {
    let key = b"26364";
    data.iter().enumerate().map(|(i, b)| b ^ key[i % key.len()]).collect()
}

#[test]
fn level_password_no_copy() {
    assert_eq!(level_password("0"), Ok(Password::NoCopy));
}

#[test]
fn level_password_free_copy() {
    // A decryption of length one means the level is freely copyable.
    let encoded = b64(&xor_with_key(b"1"));
    assert_eq!(level_password(&encoded), Ok(Password::FreeCopy));
}

#[test]
fn level_password_with_password() {
    // The first decrypted byte is a marker; the rest is the password.
    let encoded = b64(&xor_with_key(b"1123456"));
    assert_eq!(
        level_password(&encoded),
        Ok(Password::PasswordCopy("123456".to_string())),
    );
}

#[test]
fn level_password_rejects_invalid_base64() {
    assert_eq!(level_password("!!!"), Err(ValueError::Base64));
}

#[test]
fn description_decoding() {
    let encoded = b64("a fine level".as_bytes());
    assert_eq!(parse_description(&encoded), Some("a fine level".to_string()));
    assert_eq!(parse_description("%%%"), None);
}

#[test]
fn xor_decrypt_is_an_involution() {
    let data: Vec<u8> = b"attack at dawn".to_vec();
    let key: Vec<u8> = b"26364".to_vec();
    let once = xor_decrypt(&data, &key);
    assert_ne!(once, data);
    assert_eq!(xor_decrypt(&once, &key), data);
}

#[test]
fn numeric_field_parsing() {
    assert_eq!(parse_u64("0"), Some(0));
    assert_eq!(parse_u64("120"), Some(120));
    assert_eq!(parse_u64("18446744073709551615"), Some(u64::MAX));
    assert_eq!(parse_u64("18446744073709551616"), None);
    assert_eq!(parse_u64(""), None);
    assert_eq!(parse_u64("12a"), None);

    assert_eq!(int_to_bool("0"), Ok(false));
    assert_eq!(int_to_bool("1"), Ok(true));
    assert_eq!(int_to_bool("5"), Ok(true));
    assert_eq!(int_to_bool("x"), Err(ValueError::Parse(0)));

    assert_eq!(default_to_none("0"), Ok(None));
    assert_eq!(default_to_none("7"), Ok(Some(7)));
    assert_eq!(default_to_none(""), Err(ValueError::Parse(0)));

    assert_eq!(into_option("hello"), Some("hello".to_string()));
}

#[test]
fn difficulty_processing() {
    assert_eq!(process_difficulty(10, false, false), LevelRating::Easy);
    assert_eq!(process_difficulty(50, false, false), LevelRating::Insane);
    assert_eq!(process_difficulty(0, false, false), LevelRating::NotAvailable);
    assert_eq!(process_difficulty(0, true, false), LevelRating::Auto);
    assert_eq!(
        process_difficulty(6, false, true),
        LevelRating::Demon(DemonRating::Extreme),
    );
    // The demon flag wins over the auto flag.
    assert_eq!(
        process_difficulty(3, true, true),
        LevelRating::Demon(DemonRating::Easy),
    );
}

#[test]
fn song_processing() {
    let main = process_song(0, &None).expect("a level without custom song has a main song");
    assert_eq!(main.main_song_id, 0);
    assert_eq!(main.name, "Stereo Madness");
    let unknown = process_song(99, &None).unwrap();
    assert_eq!(unknown.main_song_id, 255);
    assert!(process_song(0, &Some(7)).is_none());
}

#[test]
fn level_data_decompression() {
    let mut encoder =
        flate2::write::GzEncoder::new(Vec::new(), flate2::Compression::default());
    encoder.write_all(b"1,1,2;1,2,3").unwrap();
    let compressed = encoder.finish().unwrap();

    let level: Level<Option<u64>, u64> = Level {
        base: PartialLevel {
            level_id: 1,
            name: "compressed".to_string(),
            description: None,
            version: 1,
            creator: 2,
            difficulty: LevelRating::Easy,
            downloads: 0,
            main_song: None,
            gd_version: GameVersion::Version { minor: 1, major: 2 },
            likes: 0,
            length: LevelLength::Short,
            stars: 0,
            featured: Featured::NotFeatured,
            index_31: None,
            copy_of: None,
            coin_amount: 0,
            coins_verified: false,
            stars_requested: None,
            index_40: None,
            is_epic: false,
            index_43: String::new(),
            object_amount: None,
            index_46: String::new(),
            index_47: String::new(),
            custom_song: None,
        },
        level_data: Arc::new(compressed),
        password: Password::NoCopy,
        time_since_update: String::new(),
        time_since_upload: String::new(),
        index_36: String::new(),
    };
    assert_eq!(level.decompress_data(), Some("1,1,2;1,2,3".to_string()));

    // Garbage is not gzip data.
    let garbage = Level { level_data: Arc::new(vec![0, 1, 2, 3]), ..level };
    assert_eq!(garbage.decompress_data(), None);
}
