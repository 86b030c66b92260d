//! Helpers for parsing the remote's ad-hoc key-indexed text format into
//! domain values: difficulty and song processing, description and password
//! decoding, and the [`Parse`] trait that format parsers implement.

use vstd::prelude::*;
use vstd::string::{StringExecFns, StrSliceExecFns};
use crate::model::{DemonRating, LevelRating, MainSong, Password};
use crate::strutil::u64_to_string;

verus! {

/// An error while reading a value of the key-indexed format.
#[derive(Debug, Clone, Copy, PartialEq, Eq, Structural)]
pub enum ValueError {
    /// The index carried no value.
    NoValue(u64),
    /// The value at the index could not be parsed.
    Parse(u64),
    /// A base64-encoded value could not be decoded.
    Base64,
}

/// What base64 (URL-safe alphabet) decoding yields for the given characters;
/// the result depends on the characters alone.
pub uninterp spec fn b64_decode(s: Seq<char>) -> Option<Seq<u8>>;

/// Relies on the URL-safe engine of the base64 crate: `decode` computes a
/// pure function of the input characters.
#[verifier::external_body]
fn b64_decode_bytes(s: &str) -> (r: Option<Vec<u8>>)
    ensures
        match r {
            Some(b) => b64_decode(s@) == Some(b@),
            None => b64_decode(s@) is None,
        },
{
    match base64::Engine::decode(&base64::engine::general_purpose::URL_SAFE, s) {
        Ok(v) => Some(v),
        Err(_) => None,
    }
}

/// Relies on std's `String::from_utf8`: it succeeds exactly on valid UTF-8
/// and the result's bytes are the input bytes.
#[verifier::external_body]
fn string_from_utf8(v: Vec<u8>) -> (r: Option<String>)
    ensures
        match r {
            Some(s) => vstd::utf8::valid_utf8(v@) && s@ == vstd::utf8::decode_utf8(v@),
            None => !vstd::utf8::valid_utf8(v@),
        },
{
    match String::from_utf8(v) {
        Ok(s) => Some(s),
        Err(_) => None,
    }
}

/// The characters a base64-encoded UTF-8 string decodes to.
pub open spec fn b64_decoded_chars(s: Seq<char>) -> Option<Seq<char>> {
    match b64_decode(s) {
        Some(bytes) => if vstd::utf8::valid_utf8(bytes) {
            Some(vstd::utf8::decode_utf8(bytes))
        } else {
            None
        },
        None => None,
    }
}

/// Decodes a base64-encoded UTF-8 string.
pub fn b64_decode_string(s: &str) -> (r: Option<String>)
    ensures
        match r {
            Some(out) => b64_decoded_chars(s@) == Some(out@),
            None => b64_decoded_chars(s@) is None,
        },
{
    match b64_decode_bytes(s) {
        Some(bytes) => string_from_utf8(bytes),
        None => None,
    }
}

/// Level descriptions are decoded leniently: a value that fails to decode is
/// simply dropped.
pub fn parse_description(value: &str) -> (r: Option<String>)
    ensures
        match r {
            Some(out) => b64_decoded_chars(value@) == Some(out@),
            None => b64_decoded_chars(value@) is None,
        },
{
    b64_decode_string(value)
}

/// XOR of `data` with `key` repeated cyclically.
pub open spec fn xor_cycle(data: Seq<u8>, key: Seq<u8>) -> Seq<u8>
    recommends
        key.len() > 0,
{
    Seq::new(data.len(), |i: int| data[i] ^ key[i % key.len() as int])
}

/// Decrypts `data` by XORing it with `key` repeated cyclically.
pub fn xor_decrypt(data: &Vec<u8>, key: &Vec<u8>) -> (r: Vec<u8>)
    requires
        key@.len() > 0,
    ensures
        r@ == xor_cycle(data@, key@),
{
    let n = data.len();
    let klen = key.len();
    let mut r: Vec<u8> = Vec::new();
    let mut i: usize = 0;
    while i < n
        invariant
            n == data@.len(),
            klen == key@.len(),
            klen > 0,
            i <= n,
            r@.len() == i,
            forall|j: int| 0 <= j < i ==> r@[j] == data@[j] ^ key@[j % klen as int],
        decreases n - i,
    {
        r.push(data[i] ^ key[i % klen]);
        i += 1;
    }
    proof {
        assert(r@ =~= xor_cycle(data@, key@));
    }
    r
}

/// The key level passwords are XORed with.
pub open spec fn password_key() -> Seq<u8> {
    seq![50u8, 54u8, 51u8, 54u8, 52u8]
}

fn password_key_exec() -> (r: Vec<u8>)
    ensures
        r@ == password_key(),
{
    let mut r: Vec<u8> = Vec::new();
    r.push(50);
    r.push(54);
    r.push(51);
    r.push(54);
    r.push(52);
    proof {
        assert(r@ =~= password_key());
    }
    r
}

/// Attempts to parse an encrypted level password.  `"0"` means the level
/// cannot be copied; otherwise the value is URL-safe base64 whose decryption
/// is either the single free-copy marker byte or the marker followed by the
/// password text.
pub fn level_password(encrypted: &str) -> (r: Result<Password, ValueError>)
    ensures
        encrypted@ == seq!['0'] ==> r == Ok::<Password, ValueError>(Password::NoCopy),
        encrypted@ != seq!['0'] ==> match b64_decode(encrypted@) {
            None => r == Err::<Password, ValueError>(ValueError::Base64),
            Some(bytes) => {
                let decrypted = xor_cycle(bytes, password_key());
                if decrypted.len() == 0 {
                    r == Err::<Password, ValueError>(ValueError::Base64)
                } else if decrypted.len() == 1 {
                    r == Ok::<Password, ValueError>(Password::FreeCopy)
                } else if vstd::utf8::valid_utf8(decrypted.drop_first()) {
                    r matches Ok(Password::PasswordCopy(p)) && p@ == vstd::utf8::decode_utf8(
                        decrypted.drop_first(),
                    )
                } else {
                    r == Err::<Password, ValueError>(ValueError::Base64)
                }
            },
        },
{
    proof {
        reveal_strlit("0");
    }
    let is_zero = encrypted.unicode_len() == 1 && encrypted.get_char(0) == '0';
    if is_zero {
        proof {
            assert(encrypted@ =~= seq!['0']);
        }
        return Ok(Password::NoCopy);
    }
    proof {
        if encrypted@ == seq!['0'] {
            assert(encrypted@.len() == 1 && encrypted@[0] == '0');
        }
    }
    match b64_decode_bytes(encrypted) {
        None => Err(ValueError::Base64),
        Some(decoded) => {
            let key = password_key_exec();
            let decrypted = xor_decrypt(&decoded, &key);
            if decrypted.len() == 0 {
                Err(ValueError::Base64)
            } else if decrypted.len() == 1 {
                Ok(Password::FreeCopy)
            } else {
                let mut rest: Vec<u8> = Vec::new();
                let mut i: usize = 1;
                while i < decrypted.len()
                    invariant
                        1 <= i <= decrypted@.len(),
                        rest@ == decrypted@.subrange(1, i as int),
                        decrypted@.len() > 1,
                    decreases decrypted@.len() - i,
                {
                    let b = decrypted[i];
                    rest.push(b);
                    proof {
                        assert(decrypted@.subrange(1, i + 1) =~= decrypted@.subrange(
                            1,
                            i as int,
                        ).push(decrypted@[i as int]));
                    }
                    i += 1;
                }
                proof {
                    assert(rest@ =~= decrypted@.drop_first());
                }
                match string_from_utf8(rest) {
                    Some(p) => Ok(Password::PasswordCopy(p)),
                    None => Err(ValueError::Base64),
                }
            }
        },
    }
}

/// The demon rating encoded by a difficulty code.
pub open spec fn demon_from_code(code: int) -> DemonRating {
    if code == 3 {
        DemonRating::Easy
    } else if code == 4 {
        DemonRating::Medium
    } else if code == 5 {
        DemonRating::Insane
    } else if code == 6 {
        DemonRating::Extreme
    } else {
        DemonRating::Hard
    }
}

/// The level rating encoded by a difficulty code.
pub open spec fn rating_from_code(code: int) -> LevelRating {
    if code == 10 {
        LevelRating::Easy
    } else if code == 20 {
        LevelRating::Normal
    } else if code == 30 {
        LevelRating::Hard
    } else if code == 40 {
        LevelRating::Harder
    } else if code == 50 {
        LevelRating::Insane
    } else {
        LevelRating::NotAvailable
    }
}

/// Combines the raw difficulty fields into a rating: demon and auto flags
/// take precedence over the numeric code.
pub fn process_difficulty(rating: i32, is_auto: bool, is_demon: bool) -> (r: LevelRating)
    ensures
        is_demon ==> r == LevelRating::Demon(demon_from_code(rating as int)),
        !is_demon && is_auto ==> r == LevelRating::Auto,
        !is_demon && !is_auto ==> r == rating_from_code(rating as int),
{
    if is_demon {
        LevelRating::Demon(
            match rating {
                3 => DemonRating::Easy,
                4 => DemonRating::Medium,
                5 => DemonRating::Insane,
                6 => DemonRating::Extreme,
                _ => DemonRating::Hard,
            },
        )
    } else if is_auto {
        LevelRating::Auto
    } else {
        match rating {
            10 => LevelRating::Easy,
            20 => LevelRating::Normal,
            30 => LevelRating::Hard,
            40 => LevelRating::Harder,
            50 => LevelRating::Insane,
            _ => LevelRating::NotAvailable,
        }
    }
}

/// The id the main-song table answers for a requested id: ids past the table
/// map to the unknown-song marker.
pub open spec fn main_song_id_of(id: int) -> u8 {
    if 0 <= id <= 20 {
        id as u8
    } else {
        255
    }
}

/// The built-in song with the given id, or the unknown-song marker for ids
/// the table does not know.
pub fn main_song_by_id(id: u64) -> (r: MainSong)
    ensures
        r.main_song_id == main_song_id_of(id as int),
{
    let (main_song_id, name, artist): (u8, &str, &str) = if id == 0 {
        (0, "Stereo Madness", "ForeverBound")
    } else if id == 1 {
        (1, "Back On Track", "DJVI")
    } else if id == 2 {
        (2, "Polargeist", "Step")
    } else if id == 3 {
        (3, "Dry Out", "DJVI")
    } else if id == 4 {
        (4, "Base After Base", "DJVI")
    } else if id == 5 {
        (5, "Cant Let Go", "DJVI")
    } else if id == 6 {
        (6, "Jumper", "Waterflame")
    } else if id == 7 {
        (7, "Time Machine", "Waterflame")
    } else if id == 8 {
        (8, "Cycles", "DJVI")
    } else if id == 9 {
        (9, "xStep", "DJVI")
    } else if id == 10 {
        (10, "Clutterfunk", "Waterflame")
    } else if id == 11 {
        (11, "Theory of Everything", "DJ-Nate")
    } else if id == 12 {
        (12, "Electroman Adventures", "Waterflame")
    } else if id == 13 {
        (13, "Clubstep", "DJ-Nate")
    } else if id == 14 {
        (14, "Electrodynamix", "DJ-Nate")
    } else if id == 15 {
        (15, "Hexagon Force", "Waterflame")
    } else if id == 16 {
        (16, "Blast Processing", "Waterflame")
    } else if id == 17 {
        (17, "Theory of Everything 2", "DJ-Nate")
    } else if id == 18 {
        (18, "Geometrical Dominator", "Waterflame")
    } else if id == 19 {
        (19, "Deadlocked", "F-777")
    } else if id == 20 {
        (20, "Fingerdash", "MDK")
    } else {
        (255, "Unknown", "Unknown")
    };
    MainSong { main_song_id, name: name.to_owned(), artist: artist.to_owned() }
}

/// The main song of a level: present exactly when the level has no custom
/// song, looked up in the built-in table.
pub fn process_song(main_song: u64, custom_song: &Option<u64>) -> (r: Option<MainSong>)
    ensures
        custom_song is None ==> (r matches Some(m) && m.main_song_id == main_song_id_of(
            main_song as int,
        )),
        custom_song is Some ==> r is None,
{
    if custom_song.is_none() {
        Some(main_song_by_id(main_song))
    } else {
        None
    }
}

/// Whether `c` is a decimal digit.
pub open spec fn is_digit(c: char) -> bool {
    '0' <= c && c <= '9'
}

/// The numeric value of a digit character.
pub open spec fn digit_val(c: char) -> int {
    c as int - '0' as int
}

/// Whether every character of `s` is a decimal digit.
pub open spec fn all_digits(s: Seq<char>) -> bool {
    forall|i: int| 0 <= i < s.len() ==> is_digit(#[trigger] s[i])
}

/// The number denoted by a digit string, most significant digit first.
pub open spec fn dec_val(s: Seq<char>) -> int
    decreases s.len(),
{
    if s.len() == 0 {
        0
    } else {
        dec_val(s.drop_last()) * 10 + digit_val(s.last())
    }
}

proof fn lemma_dec_val_nonneg(s: Seq<char>)
    requires
        all_digits(s),
    ensures
        dec_val(s) >= 0,
    decreases s.len(),
{
    if s.len() > 0 {
        assert(forall|i: int|
            0 <= i < s.drop_last().len() ==> is_digit(#[trigger] s.drop_last()[i]));
        lemma_dec_val_nonneg(s.drop_last());
    }
}

proof fn lemma_dec_val_prefix_mono(s: Seq<char>, i: int)
    requires
        all_digits(s),
        0 <= i <= s.len(),
    ensures
        dec_val(s.take(i)) <= dec_val(s),
    decreases s.len() - i,
{
    if i < s.len() {
        assert(s.take(i + 1).drop_last() =~= s.take(i));
        assert(s.take(i + 1).last() == s[i]);
        assert(forall|j: int| 0 <= j < s.take(i).len() ==> is_digit(#[trigger] s.take(i)[j]));
        lemma_dec_val_nonneg(s.take(i));
        assert(dec_val(s.take(i)) <= dec_val(s.take(i + 1)));
        lemma_dec_val_prefix_mono(s, i + 1);
    } else {
        assert(s.take(i) =~= s);
    }
}

/// Parses a decimal number: succeeds exactly on non-empty all-digit strings
/// whose value fits in a `u64`, and then yields that value.
pub fn parse_u64(s: &str) -> (r: Option<u64>)
    ensures
        match r {
            Some(v) => s@.len() > 0 && all_digits(s@) && v == dec_val(s@),
            None => s@.len() == 0 || !all_digits(s@) || dec_val(s@) > u64::MAX,
        },
{
    let n = s.unicode_len();
    if n == 0 {
        return None;
    }
    let mut v: u64 = 0;
    let mut i: usize = 0;
    while i < n
        invariant
            n == s@.len(),
            i <= n,
            all_digits(s@.take(i as int)),
            v == dec_val(s@.take(i as int)),
        decreases n - i,
    {
        let c = s.get_char(i);
        if !(c >= '0' && c <= '9') {
            return None;
        }
        let d: u64 = (c as u32 as u64) - 48;
        proof {
            assert(s@.take(i + 1).drop_last() =~= s@.take(i as int));
            assert(s@.take(i + 1).last() == s@[i as int]);
            assert(forall|j: int|
                0 <= j < s@.take(i + 1).len() ==> is_digit(#[trigger] s@.take(i + 1)[j]));
        }
        if v > (u64::MAX - d) / 10 {
            proof {
                assert(dec_val(s@.take(i + 1)) > u64::MAX);
                assert(all_digits(s@) ==> dec_val(s@) > u64::MAX) by {
                    if all_digits(s@) {
                        lemma_dec_val_prefix_mono(s@, i + 1);
                    }
                }
            }
            return None;
        }
        v = v * 10 + d;
        i += 1;
    }
    proof {
        assert(s@.take(n as int) =~= s@);
    }
    Some(v)
}

/// Parses a raw integer field into a boolean: any non-zero value is true.
pub fn int_to_bool(value: &str) -> (r: Result<bool, ValueError>)
    ensures
        match r {
            Ok(b) => value@.len() > 0 && all_digits(value@) && b == (dec_val(value@) != 0),
            Err(e) => e == ValueError::Parse(0) && (value@.len() == 0 || !all_digits(value@)
                || dec_val(value@) > u64::MAX),
        },
{
    match parse_u64(value) {
        Some(v) => Ok(v != 0),
        None => Err(ValueError::Parse(0)),
    }
}

/// Parses a raw integer field, mapping the default value to `None` so that
/// absent-by-default fields read back as absent.
pub fn default_to_none(value: &str) -> (r: Result<Option<u64>, ValueError>)
    ensures
        match r {
            Ok(o) => value@.len() > 0 && all_digits(value@) && o == (if dec_val(value@) == 0 {
                Option::<u64>::None
            } else {
                Some(dec_val(value@) as u64)
            }),
            Err(e) => e == ValueError::Parse(0) && (value@.len() == 0 || !all_digits(value@)
                || dec_val(value@) > u64::MAX),
        },
{
    match parse_u64(value) {
        Some(v) => if v == 0 {
            Ok(None)
        } else {
            Ok(Some(v))
        },
        None => Err(ValueError::Parse(0)),
    }
}

/// Wraps a raw field value as present.
pub fn into_option(value: &str) -> (r: Option<String>)
    ensures
        r matches Some(s) && s@ == value@,
{
    Some(value.to_owned())
}

/// What a parser of the remote's key-indexed format offers: given the
/// `(index, value)` fields of one record, it builds the value.  The iterator
/// and string forms are conveniences over the same required method.
pub trait Parse: Sized {
    /// Builds a value from the `(index, value)` fields of one record.
    fn parse(fields: &Vec<(String, String)>) -> Result<Self, ValueError>;

    /// Builds a value from an alternating `index, value, index, value, ...`
    /// sequence, as the remote sends it.
    fn parse_iter(values: &Vec<String>) -> (r: Result<Self, ValueError>) {
        let n = values.len();
        let mut fields: Vec<(String, String)> = Vec::new();
        let mut i: usize = 0;
        while n - i >= 2
            invariant
                n == values@.len(),
                i <= n,
            decreases n - i,
        {
            fields.push((values[i].clone(), values[i + 1].clone()));
            i += 2;
        }
        Self::parse(&fields)
    }

    /// Builds a value from a plain value sequence, numbering the fields from
    /// one as the unindexed forms of the format do.
    fn parse_unindexed_iter(values: &Vec<String>) -> (r: Result<Self, ValueError>) {
        let mut fields: Vec<(String, String)> = Vec::new();
        let mut i: usize = 0;
        while i < values.len()
            invariant
                i <= values@.len(),
            decreases values@.len() - i,
        {
            let index = u64_to_string((i + 1) as u64);
            fields.push((index, values[i].clone()));
            i += 1;
        }
        Self::parse(&fields)
    }

    /// Builds a value from a delimited string.
    fn parse_str(input: &str, delimiter: char) -> (r: Result<Self, ValueError>) {
        let values = split_string(input, delimiter);
        Self::parse_iter(&values)
    }

    /// Builds a value from a delimited string without indices.
    fn parse_unindexed_str(input: &str, delimiter: char) -> (r: Result<Self, ValueError>) {
        let values = split_string(input, delimiter);
        Self::parse_unindexed_iter(&values)
    }
}

/// Splits `s` at every occurrence of `delimiter`.
pub fn split_string(s: &str, delimiter: char) -> (r: Vec<String>) {
    let n = s.unicode_len();
    let mut pieces: Vec<String> = Vec::new();
    let mut start: usize = 0;
    let mut i: usize = 0;
    while i < n
        invariant
            n == s@.len(),
            start <= i <= n,
        decreases n - i,
    {
        if s.get_char(i) == delimiter {
            pieces.push(s.substring_char(start, i).to_owned());
            start = i + 1;
        }
        i += 1;
    }
    pieces.push(s.substring_char(start, n).to_owned());
    pieces
}

} // verus!
