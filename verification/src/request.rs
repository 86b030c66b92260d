//! Typed request descriptors with stable fingerprints.
//!
//! A request's fingerprint is a canonical list of `(field tag, payload)`
//! pairs, in increasing tag order, that deliberately excludes the `base`
//! request data and skips every field that is at its default value.  Skipping
//! defaults keeps fingerprints of old requests stable when a request schema
//! gains new fields; excluding `base` keeps them stable across client
//! versions.  The fingerprint is the key under which a request's result is
//! cached.

use vstd::prelude::*;
use vstd::string::StrSliceExecFns;
use crate::model::{DemonRating, GameVersion, Level, LevelLength, LevelRating, PartialLevel};
use crate::strutil::u64_to_string;

verus! {

/// The request data shared by every request: protocol versions and the
/// client secret.  None of it is semantic content; fingerprints ignore it.
#[derive(Debug, Clone, PartialEq)]
pub struct BaseRequest {
    pub game_version: GameVersion,
    pub binary_version: GameVersion,
    pub secret: String,
}

impl BaseRequest {
    /// The base data sent by the vanilla 2.1 client.
    pub fn gd_21() -> (r: BaseRequest)
        ensures
            r.game_version == (GameVersion::Version { minor: 1, major: 2 }),
            r.binary_version == (GameVersion::Version { minor: 3, major: 3 }),
    {
        BaseRequest {
            game_version: GameVersion::Version { minor: 1, major: 2 },
            binary_version: GameVersion::Version { minor: 3, major: 3 },
            secret: ("Wmfd2893gb7").to_owned(),
        }
    }
}

impl Default for BaseRequest {
    fn default() -> (r: BaseRequest)
        ensures
            r.game_version == (GameVersion::Version { minor: 1, major: 2 }),
            r.binary_version == (GameVersion::Version { minor: 3, major: 3 }),
    {
        BaseRequest::gd_21()
    }
}

/// The kinds of level list the remote can serve.
#[derive(Debug, Clone, Copy, PartialEq, Eq, Structural)]
pub enum LevelRequestType {
    Search,
    MostDownloaded,
    MostLiked,
    Trending,
    Recent,
    User,
    Featured,
    Magic,
    Unknown8,
    Awarded,
    Followed,
    Friend,
    Unknown12,
    Unknown13,
    Unknown14,
    Unknown15,
    HallOfFame,
}

/// The integer value by which the remote identifies each request type.
pub open spec fn request_type_code(t: LevelRequestType) -> i32 {
    match t {
        LevelRequestType::Search => 0,
        LevelRequestType::MostDownloaded => 1,
        LevelRequestType::MostLiked => 2,
        LevelRequestType::Trending => 3,
        LevelRequestType::Recent => 4,
        LevelRequestType::User => 5,
        LevelRequestType::Featured => 6,
        LevelRequestType::Magic => 7,
        LevelRequestType::Unknown8 => 8,
        LevelRequestType::Awarded => 9,
        LevelRequestType::Followed => 10,
        LevelRequestType::Friend => 11,
        LevelRequestType::Unknown12 => 12,
        LevelRequestType::Unknown13 => 13,
        LevelRequestType::Unknown14 => 14,
        LevelRequestType::Unknown15 => 15,
        LevelRequestType::HallOfFame => 16,
    }
}

impl LevelRequestType {
    /// The integer value by which the remote identifies this request type.
    pub fn code(&self) -> (r: i32)
        ensures
            r == request_type_code(*self),
    {
        match self {
            LevelRequestType::Search => 0,
            LevelRequestType::MostDownloaded => 1,
            LevelRequestType::MostLiked => 2,
            LevelRequestType::Trending => 3,
            LevelRequestType::Recent => 4,
            LevelRequestType::User => 5,
            LevelRequestType::Featured => 6,
            LevelRequestType::Magic => 7,
            LevelRequestType::Unknown8 => 8,
            LevelRequestType::Awarded => 9,
            LevelRequestType::Followed => 10,
            LevelRequestType::Friend => 11,
            LevelRequestType::Unknown12 => 12,
            LevelRequestType::Unknown13 => 13,
            LevelRequestType::Unknown14 => 14,
            LevelRequestType::Unknown15 => 15,
            LevelRequestType::HallOfFame => 16,
        }
    }
}

/// Distinct request types have distinct codes.
pub proof fn lemma_request_type_code_injective(a: LevelRequestType, b: LevelRequestType)
    requires
        request_type_code(a) == request_type_code(b),
    ensures
        a == b,
{
}

impl Default for LevelRequestType {
    fn default() -> (r: LevelRequestType)
        ensures
            r == LevelRequestType::Featured,
    {
        LevelRequestType::Featured
    }
}

/// A filter on the song of a level search.
#[derive(Debug, Clone, Copy, PartialEq, Eq, Structural)]
pub enum SongFilter {
    /// Filter by one of the built-in main songs.
    Main(u8),
    /// Filter by a newgrounds song id.
    Custom(u64),
}

/// The search filters offered by the client for level searches.
#[derive(Debug, Clone, Copy, PartialEq, Eq, Structural)]
pub struct SearchFilters {
    pub uncompleted: bool,
    pub completed: bool,
    pub featured: bool,
    pub original: bool,
    pub two_player: bool,
    pub coins: bool,
    pub epic: bool,
    pub rated: bool,
    pub song: Option<SongFilter>,
}

impl SearchFilters {
    /// The filter set that filters nothing.
    pub open spec fn default_spec() -> SearchFilters {
        SearchFilters {
            uncompleted: false,
            completed: false,
            featured: false,
            original: false,
            two_player: false,
            coins: false,
            epic: false,
            rated: false,
            song: None,
        }
    }

    pub fn new() -> (r: SearchFilters)
        ensures
            r == SearchFilters::default_spec(),
    {
        SearchFilters {
            uncompleted: false,
            completed: false,
            featured: false,
            original: false,
            two_player: false,
            coins: false,
            epic: false,
            rated: false,
            song: None,
        }
    }

    pub fn rated(self) -> (r: SearchFilters)
        ensures
            r == (SearchFilters { rated: true, ..self }),
    {
        SearchFilters { rated: true, ..self }
    }

    pub fn uncompleted(self) -> (r: SearchFilters)
        ensures
            r == (SearchFilters { uncompleted: true, ..self }),
    {
        SearchFilters { uncompleted: true, ..self }
    }

    pub fn completed(self) -> (r: SearchFilters)
        ensures
            r == (SearchFilters { completed: true, ..self }),
    {
        SearchFilters { completed: true, ..self }
    }

    pub fn featured(self) -> (r: SearchFilters)
        ensures
            r == (SearchFilters { featured: true, ..self }),
    {
        SearchFilters { featured: true, ..self }
    }

    pub fn original(self) -> (r: SearchFilters)
        ensures
            r == (SearchFilters { original: true, ..self }),
    {
        SearchFilters { original: true, ..self }
    }

    pub fn two_player(self) -> (r: SearchFilters)
        ensures
            r == (SearchFilters { two_player: true, ..self }),
    {
        SearchFilters { two_player: true, ..self }
    }

    pub fn coins(self) -> (r: SearchFilters)
        ensures
            r == (SearchFilters { coins: true, ..self }),
    {
        SearchFilters { coins: true, ..self }
    }

    pub fn epic(self) -> (r: SearchFilters)
        ensures
            r == (SearchFilters { epic: true, ..self }),
    {
        SearchFilters { epic: true, ..self }
    }

    pub fn main_song(self, id: u8) -> (r: SearchFilters)
        ensures
            r == (SearchFilters { song: Some(SongFilter::Main(id)), ..self }),
    {
        SearchFilters { song: Some(SongFilter::Main(id)), ..self }
    }

    pub fn custom_song(self, id: u64) -> (r: SearchFilters)
        ensures
            r == (SearchFilters { song: Some(SongFilter::Custom(id)), ..self }),
    {
        SearchFilters { song: Some(SongFilter::Custom(id)), ..self }
    }
}

impl Default for SearchFilters {
    fn default() -> (r: SearchFilters)
        ensures
            r == SearchFilters::default_spec(),
    {
        SearchFilters::new()
    }
}

/// A request to download a single level.
#[derive(Debug, Clone, PartialEq)]
pub struct LevelRequest {
    /// The base request data; never part of the fingerprint.
    pub base: BaseRequest,
    /// The id of the level to download.
    pub level_id: u64,
    /// Mirrors the `inc` field the vanilla client sends along.
    pub inc: bool,
    /// Mirrors the `extras` field the vanilla client sends along.
    pub extra: bool,
    /// Bypass the freshness check and always refresh; never part of the
    /// fingerprint.
    pub force_refresh: bool,
}

/// A request for a list of levels matching some criteria.
#[derive(Debug, Clone, PartialEq)]
pub struct LevelsRequest {
    /// The base request data; never part of the fingerprint.
    pub base: BaseRequest,
    /// The kind of list to retrieve.
    pub request_type: LevelRequestType,
    /// Search string; only meaningful for [`LevelRequestType::Search`].
    pub search_string: String,
    /// Level lengths to filter by.
    pub lengths: Vec<LevelLength>,
    /// Level ratings to filter by.
    pub ratings: Vec<LevelRating>,
    /// A single demon rating to filter by.
    pub demon_rating: Option<DemonRating>,
    /// The page of results to retrieve.  Distinct pages are distinct
    /// cacheable requests, so the page is part of the fingerprint.
    pub page: u32,
    /// A value the vanilla client sends along.
    pub total: i32,
    /// Search filters to apply.
    pub search_filters: SearchFilters,
    /// Bypass the freshness check and always refresh; never part of the
    /// fingerprint.
    pub force_refresh: bool,
}


/// The remote wire shape of a user request: the base request data flattened
/// together with the target account id.  The program embedding the library
/// derives its serialization from a copy of this struct.
#[derive(Debug, Clone, PartialEq)]
pub struct UserRequestRem {
    pub base: BaseRequest,
    pub user: u64,
}

/// A request fingerprint: a request kind marker and the canonical tagged
/// field list.  Two requests are the same cacheable request exactly when
/// their fingerprints are equal.
#[derive(Debug, Clone, PartialEq)]
pub struct Fingerprint {
    pub kind: u64,
    pub fields: Vec<(u64, Vec<u64>)>,
}

/// The mathematical content of a tagged field list: the same pairs with the
/// payload vectors replaced by their sequences.
pub open spec fn pairs_view(fields: Seq<(u64, Vec<u64>)>) -> Seq<(u64, Seq<u64>)> {
    fields.map_values(|p: (u64, Vec<u64>)| (p.0, p.1@))
}

pub proof fn lemma_pairs_view_push(s: Seq<(u64, Vec<u64>)>, p: (u64, Vec<u64>))
    ensures
        pairs_view(s.push(p)) == pairs_view(s).push((p.0, p.1@)),
{
    assert(pairs_view(s.push(p)) =~= pairs_view(s).push((p.0, p.1@)));
}

impl View for Fingerprint {
    type V = (u64, Seq<(u64, Seq<u64>)>);

    open spec fn view(&self) -> (u64, Seq<(u64, Seq<u64>)>) {
        (self.kind, pairs_view(self.fields@))
    }
}

impl Fingerprint {
    /// Structural equality of fingerprints, used by cache key comparison.
    pub fn eq_fp(&self, other: &Fingerprint) -> (r: bool)
        ensures
            r == (self@ == other@),
    {
        if self.kind != other.kind {
            proof {
                assert(self@.0 != other@.0);
            }
            return false;
        }
        if self.fields.len() != other.fields.len() {
            proof {
                assert(self@.1.len() != other@.1.len());
            }
            return false;
        }
        let n = self.fields.len();
        let mut i: usize = 0;
        while i < n
            invariant
                n == self.fields.len(),
                n == other.fields.len(),
                i <= n,
                self.kind == other.kind,
                forall|j: int| 0 <= j < i ==> self@.1[j] == other@.1[j],
            decreases n - i,
        {
            let (tag_a, payload_a) = &self.fields[i];
            let (tag_b, payload_b) = &other.fields[i];
            if *tag_a != *tag_b {
                proof {
                    assert(self@.1[i as int].0 != other@.1[i as int].0);
                }
                return false;
            }
            if payload_a.len() != payload_b.len() {
                proof {
                    assert(self@.1[i as int].1.len() != other@.1[i as int].1.len());
                }
                return false;
            }
            let m = payload_a.len();
            let mut k: usize = 0;
            while k < m
                invariant
                    m == payload_a@.len(),
                    m == payload_b@.len(),
                    k <= m,
                    payload_a@ == self.fields@[i as int].1@,
                    payload_b@ == other.fields@[i as int].1@,
                    i < self.fields@.len(),
                    i < other.fields@.len(),
                    forall|j: int| 0 <= j < k ==> payload_a@[j] == other.fields@[i as int].1@[j],
                decreases m - k,
            {
                if payload_a[k] != payload_b[k] {
                    proof {
                        assert(self@.1[i as int].1[k as int] != other@.1[i as int].1[k as int]);
                    }
                    return false;
                }
                k += 1;
            }
            proof {
                assert(self@.1[i as int].1 =~= other@.1[i as int].1);
                assert(self@.1[i as int] == other@.1[i as int]);
            }
            i += 1;
        }
        proof {
            assert(self@.1 =~= other@.1);
        }
        true
    }
}

/// A fingerprint section: present exactly when the field is not at its
/// default value.
pub open spec fn opt_section(present: bool, tag: u64, payload: Seq<u64>) -> Seq<(u64, Seq<u64>)> {
    if present {
        seq![(tag, payload)]
    } else {
        Seq::empty()
    }
}

/// Every tag in `s` lies strictly below `t`.
pub open spec fn tags_below(s: Seq<(u64, Seq<u64>)>, t: u64) -> bool {
    forall|i: int| 0 <= i < s.len() ==> (#[trigger] s[i]).0 < t
}

pub proof fn lemma_tags_below_section(present: bool, tag: u64, payload: Seq<u64>, t: u64)
    requires
        tag < t,
    ensures
        tags_below(opt_section(present, tag, payload), t),
{
}

pub proof fn lemma_tags_below_concat(s1: Seq<(u64, Seq<u64>)>, s2: Seq<(u64, Seq<u64>)>, t: u64)
    requires
        tags_below(s1, t),
        tags_below(s2, t),
    ensures
        tags_below(s1 + s2, t),
{
    assert forall|i: int| 0 <= i < (s1 + s2).len() implies ((s1 + s2)[i]).0 < t by {
        if i < s1.len() {
            assert((s1 + s2)[i] == s1[i]);
        } else {
            assert((s1 + s2)[i] == s2[i - s1.len()]);
        }
    }
}

pub proof fn lemma_tags_below_weaken(s: Seq<(u64, Seq<u64>)>, t: u64, t2: u64)
    requires
        tags_below(s, t),
        t <= t2,
    ensures
        tags_below(s, t2),
{
}

/// Cancellation of the trailing section of two equal tagged field lists: the
/// trailing section is present on one side exactly when it is present on the
/// other, with equal payloads, and the leading parts are equal.  This is the
/// engine behind fingerprint injectivity.
pub proof fn lemma_section_cancel(
    c1: bool,
    c2: bool,
    tag: u64,
    p1: Seq<u64>,
    p2: Seq<u64>,
    r1: Seq<(u64, Seq<u64>)>,
    r2: Seq<(u64, Seq<u64>)>,
)
    requires
        r1 + opt_section(c1, tag, p1) == r2 + opt_section(c2, tag, p2),
        tags_below(r1, tag),
        tags_below(r2, tag),
    ensures
        c1 == c2,
        c1 ==> p1 == p2,
        r1 == r2,
{
    let s1 = r1 + opt_section(c1, tag, p1);
    let s2 = r2 + opt_section(c2, tag, p2);
    if c1 && c2 {
        assert(s1[s1.len() - 1] == (tag, p1));
        assert(s2[s2.len() - 1] == (tag, p2));
        assert(p1 == p2);
        assert(r1 =~= r2) by {
            assert(s1.len() == r1.len() + 1);
            assert(s2.len() == r2.len() + 1);
            assert forall|i: int| 0 <= i < r1.len() implies r1[i] == r2[i] by {
                assert(s1[i] == r1[i]);
                assert(s2[i] == r2[i]);
            }
        }
    } else if c1 && !c2 {
        assert(s1.len() == r1.len() + 1);
        assert(s1[s1.len() - 1] == (tag, p1));
        assert(s2.len() == r2.len());
        assert(s2[s2.len() - 1] == r2[s2.len() - 1]);
        assert(r2[s2.len() - 1].0 < tag);
        assert(false);
    } else if !c1 && c2 {
        assert(s2.len() == r2.len() + 1);
        assert(s2[s2.len() - 1] == (tag, p2));
        assert(s1.len() == r1.len());
        assert(s1[s1.len() - 1] == r1[s1.len() - 1]);
        assert(r1[s1.len() - 1].0 < tag);
        assert(false);
    } else {
        assert(r1 =~= r2);
    }
}

/// 1 for `true`, 0 for `false`.
pub open spec fn bool_word(b: bool) -> u64 {
    if b {
        1
    } else {
        0
    }
}

/// The code of a level length in fingerprints.
pub open spec fn length_code(l: LevelLength) -> u64 {
    match l {
        LevelLength::Tiny => 0,
        LevelLength::Short => 1,
        LevelLength::Medium => 2,
        LevelLength::Long => 3,
        LevelLength::ExtraLong => 4,
    }
}

/// The code of a demon rating in fingerprints.
pub open spec fn demon_code(d: DemonRating) -> u64 {
    match d {
        DemonRating::Easy => 0,
        DemonRating::Medium => 1,
        DemonRating::Hard => 2,
        DemonRating::Insane => 3,
        DemonRating::Extreme => 4,
    }
}

/// The code of a level rating in fingerprints; demon ratings are offset so
/// that they never collide with the plain ratings.
pub open spec fn rating_code(r: LevelRating) -> u64 {
    match r {
        LevelRating::NotAvailable => 0,
        LevelRating::Auto => 1,
        LevelRating::Easy => 2,
        LevelRating::Normal => 3,
        LevelRating::Hard => 4,
        LevelRating::Harder => 5,
        LevelRating::Insane => 6,
        LevelRating::Demon(d) => (10 + demon_code(d)) as u64,
    }
}

pub proof fn lemma_rating_code_injective(a: LevelRating, b: LevelRating)
    requires
        rating_code(a) == rating_code(b),
    ensures
        a == b,
{
}

/// A string payload: the UTF-8 encoding of the string, one byte per word.
#[verifier::opaque]
pub open spec fn string_words(s: Seq<char>) -> Seq<u64> {
    vstd::utf8::encode_utf8(s).map_values(|b: u8| b as u64)
}

pub proof fn lemma_string_words_injective(s1: Seq<char>, s2: Seq<char>)
    requires
        string_words(s1) == string_words(s2),
    ensures
        s1 == s2,
{
    reveal(string_words);
    let e1 = vstd::utf8::encode_utf8(s1);
    let e2 = vstd::utf8::encode_utf8(s2);
    assert(string_words(s1).len() == e1.len());
    assert(string_words(s2).len() == e2.len());
    assert(e1 =~= e2) by {
        assert forall|i: int| 0 <= i < e1.len() implies e1[i] == e2[i] by {
            assert(string_words(s1)[i] == e1[i] as u64);
            assert(string_words(s2)[i] == e2[i] as u64);
        }
    }
    vstd::utf8::encode_utf8_decode_utf8(s1);
    vstd::utf8::encode_utf8_decode_utf8(s2);
}

/// The payload of the lengths filter.
#[verifier::opaque]
pub open spec fn lengths_words(s: Seq<LevelLength>) -> Seq<u64> {
    s.map_values(|l: LevelLength| length_code(l))
}

pub proof fn lemma_lengths_words_injective(s1: Seq<LevelLength>, s2: Seq<LevelLength>)
    requires
        lengths_words(s1) == lengths_words(s2),
    ensures
        s1 == s2,
{
    reveal(lengths_words);
    assert(lengths_words(s1).len() == s1.len());
    assert(lengths_words(s2).len() == s2.len());
    assert(s1 =~= s2) by {
        assert forall|i: int| 0 <= i < s1.len() implies s1[i] == s2[i] by {
            assert(lengths_words(s1)[i] == length_code(s1[i]));
            assert(lengths_words(s2)[i] == length_code(s2[i]));
        }
    }
}

/// The payload of the ratings filter.
#[verifier::opaque]
pub open spec fn ratings_words(s: Seq<LevelRating>) -> Seq<u64> {
    s.map_values(|r: LevelRating| rating_code(r))
}

pub proof fn lemma_ratings_words_injective(s1: Seq<LevelRating>, s2: Seq<LevelRating>)
    requires
        ratings_words(s1) == ratings_words(s2),
    ensures
        s1 == s2,
{
    reveal(ratings_words);
    assert(ratings_words(s1).len() == s1.len());
    assert(ratings_words(s2).len() == s2.len());
    assert(s1 =~= s2) by {
        assert forall|i: int| 0 <= i < s1.len() implies s1[i] == s2[i] by {
            assert(ratings_words(s1)[i] == rating_code(s1[i]));
            assert(ratings_words(s2)[i] == rating_code(s2[i]));
            lemma_rating_code_injective(s1[i], s2[i]);
        }
    }
}

/// The payload of the demon rating filter.
pub open spec fn demon_words(d: Option<DemonRating>) -> Seq<u64> {
    match d {
        Some(x) => seq![demon_code(x)],
        None => Seq::empty(),
    }
}

/// The `total` field shifted into a non-negative word.
pub open spec fn total_word(t: i32) -> u64 {
    (t + 0x8000_0000) as u64
}

/// The words of the song filter.
pub open spec fn song_words(s: Option<SongFilter>) -> Seq<u64> {
    match s {
        None => seq![0u64, 0u64],
        Some(SongFilter::Main(id)) => seq![1u64, id as u64],
        Some(SongFilter::Custom(id)) => seq![2u64, id],
    }
}

pub proof fn lemma_song_words_injective(a: Option<SongFilter>, b: Option<SongFilter>)
    requires
        song_words(a) == song_words(b),
    ensures
        a == b,
{
    assert(song_words(a)[0] == song_words(b)[0]);
    assert(song_words(a)[1] == song_words(b)[1]);
}

/// The payload of the search filters section.
#[verifier::opaque]
pub open spec fn filters_payload(f: SearchFilters) -> Seq<u64> {
    seq![
        bool_word(f.uncompleted),
        bool_word(f.completed),
        bool_word(f.featured),
        bool_word(f.original),
        bool_word(f.two_player),
        bool_word(f.coins),
        bool_word(f.epic),
        bool_word(f.rated),
    ] + song_words(f.song)
}

pub proof fn lemma_filters_payload_injective(a: SearchFilters, b: SearchFilters)
    requires
        filters_payload(a) == filters_payload(b),
    ensures
        a == b,
{
    reveal(filters_payload);
    let pa = filters_payload(a);
    let pb = filters_payload(b);
    assert(pa[0] == bool_word(a.uncompleted) && pb[0] == bool_word(b.uncompleted));
    assert(pa[1] == bool_word(a.completed) && pb[1] == bool_word(b.completed));
    assert(pa[2] == bool_word(a.featured) && pb[2] == bool_word(b.featured));
    assert(pa[3] == bool_word(a.original) && pb[3] == bool_word(b.original));
    assert(pa[4] == bool_word(a.two_player) && pb[4] == bool_word(b.two_player));
    assert(pa[5] == bool_word(a.coins) && pb[5] == bool_word(b.coins));
    assert(pa[6] == bool_word(a.epic) && pb[6] == bool_word(b.epic));
    assert(pa[7] == bool_word(a.rated) && pb[7] == bool_word(b.rated));
    assert(a.uncompleted == b.uncompleted);
    assert(a.completed == b.completed);
    assert(a.featured == b.featured);
    assert(a.original == b.original);
    assert(a.two_player == b.two_player);
    assert(a.coins == b.coins);
    assert(a.epic == b.epic);
    assert(a.rated == b.rated);
    assert(song_words(a.song).len() == 2 && song_words(b.song).len() == 2);
    assert(song_words(a.song) =~= song_words(b.song)) by {
        assert(pa.len() == 10 && pb.len() == 10);
        assert(pa[8] == song_words(a.song)[0] && pb[8] == song_words(b.song)[0]);
        assert(pa[9] == song_words(a.song)[1] && pb[9] == song_words(b.song)[1]);
    }
    lemma_song_words_injective(a.song, b.song);
    assert(a == b);
}

impl LevelRequest {
    /// The canonical fingerprint fields of this request: the level id, the
    /// `inc` flag and the `extra` flag, each skipped at its default.
    pub open spec fn fingerprint_fields(self) -> Seq<(u64, Seq<u64>)> {
        opt_section(self.level_id != 0, 1, seq![self.level_id]) + opt_section(
            self.inc,
            2,
            seq![1u64],
        ) + opt_section(self.extra, 3, seq![1u64])
    }

    /// Constructs a request for the level with the given id, with the `inc`
    /// and `extra` flags as the vanilla client sets them.
    pub fn new(level_id: u64) -> (r: LevelRequest)
        ensures
            r.level_id == level_id,
            r.inc == true,
            r.extra == false,
            r.force_refresh == false,
    {
        LevelRequest {
            base: BaseRequest::gd_21(),
            level_id,
            inc: true,
            extra: false,
            force_refresh: false,
        }
    }

    pub fn with_base(self, base: BaseRequest) -> (r: LevelRequest)
        ensures
            r == (LevelRequest { base, ..self }),
    {
        LevelRequest { base, ..self }
    }

    pub fn inc(self, inc: bool) -> (r: LevelRequest)
        ensures
            r == (LevelRequest { inc, ..self }),
    {
        LevelRequest { inc, ..self }
    }

    pub fn extra(self, extra: bool) -> (r: LevelRequest)
        ensures
            r == (LevelRequest { extra, ..self }),
    {
        LevelRequest { extra, ..self }
    }

    /// Sets the force-refresh flag, which bypasses the freshness check.
    pub fn set_force_refresh(&mut self, force_refresh: bool)
        ensures
            *final(self) == (LevelRequest { force_refresh, ..*old(self) }),
    {
        self.force_refresh = force_refresh;
    }
}

impl Default for LevelRequest {
    fn default() -> (r: LevelRequest)
        ensures
            r.level_id == 0,
            r.inc == false,
            r.extra == false,
            r.force_refresh == false,
    {
        LevelRequest {
            base: BaseRequest::gd_21(),
            level_id: 0,
            inc: false,
            extra: false,
            force_refresh: false,
        }
    }
}

/// Fingerprints ignore the base request data: rebinding `base` leaves the
/// fingerprint fields unchanged.
pub proof fn lemma_level_fingerprint_excludes_base(r: LevelRequest, base: BaseRequest)
    ensures
        (LevelRequest { base, ..r }).fingerprint_fields() == r.fingerprint_fields(),
{
}

/// Equal fingerprints name equal requests: every semantic field of a level
/// request is recoverable from its fingerprint fields.
pub proof fn lemma_level_fingerprint_injective(a: LevelRequest, b: LevelRequest)
    requires
        a.fingerprint_fields() == b.fingerprint_fields(),
    ensures
        a.level_id == b.level_id,
        a.inc == b.inc,
        a.extra == b.extra,
{
    let a1 = opt_section(a.level_id != 0, 1, seq![a.level_id]);
    let a2 = opt_section(a.inc, 2, seq![1u64]);
    let a3 = opt_section(a.extra, 3, seq![1u64]);
    let b1 = opt_section(b.level_id != 0, 1, seq![b.level_id]);
    let b2 = opt_section(b.inc, 2, seq![1u64]);
    let b3 = opt_section(b.extra, 3, seq![1u64]);

    lemma_tags_below_section(a.level_id != 0, 1, seq![a.level_id], 3);
    lemma_tags_below_section(a.inc, 2, seq![1u64], 3);
    lemma_tags_below_concat(a1, a2, 3);
    lemma_tags_below_section(b.level_id != 0, 1, seq![b.level_id], 3);
    lemma_tags_below_section(b.inc, 2, seq![1u64], 3);
    lemma_tags_below_concat(b1, b2, 3);
    lemma_section_cancel(a.extra, b.extra, 3, seq![1u64], seq![1u64], a1 + a2, b1 + b2);

    lemma_tags_below_section(a.level_id != 0, 1, seq![a.level_id], 2);
    lemma_tags_below_section(b.level_id != 0, 1, seq![b.level_id], 2);
    lemma_section_cancel(a.inc, b.inc, 2, seq![1u64], seq![1u64], a1, b1);

    lemma_section_cancel(
        a.level_id != 0,
        b.level_id != 0,
        1,
        seq![a.level_id],
        seq![b.level_id],
        Seq::empty(),
        Seq::empty(),
    );
    if a.level_id != 0 {
        assert(seq![a.level_id][0] == seq![b.level_id][0]);
    }
}

impl LevelsRequest {
    /// The canonical fingerprint fields of this request: request type,
    /// search string, length and rating filters, demon rating, page, total
    /// and search filters, each skipped at its default.
    pub open spec fn fingerprint_fields(self) -> Seq<(u64, Seq<u64>)> {
        opt_section(
            self.request_type != LevelRequestType::Featured,
            1,
            seq![request_type_code(self.request_type) as u64],
        ) + opt_section(self.search_string@.len() != 0, 2, string_words(self.search_string@))
            + opt_section(self.lengths@.len() != 0, 3, lengths_words(self.lengths@))
            + opt_section(self.ratings@.len() != 0, 4, ratings_words(self.ratings@))
            + opt_section(self.demon_rating is Some, 5, demon_words(self.demon_rating))
            + opt_section(self.page != 0, 6, seq![self.page as u64])
            + opt_section(self.total != 0, 7, seq![total_word(self.total)])
            + opt_section(
            self.search_filters != SearchFilters::default_spec(),
            8,
            filters_payload(self.search_filters),
        )
    }

    pub fn with_base(self, base: BaseRequest) -> (r: LevelsRequest)
        ensures
            r == (LevelsRequest { base, ..self }),
    {
        LevelsRequest { base, ..self }
    }

    pub fn filter(self, search_filters: SearchFilters) -> (r: LevelsRequest)
        ensures
            r == (LevelsRequest { search_filters, ..self }),
    {
        LevelsRequest { search_filters, ..self }
    }

    pub fn page(self, page: u32) -> (r: LevelsRequest)
        ensures
            r == (LevelsRequest { page, ..self }),
    {
        LevelsRequest { page, ..self }
    }

    pub fn total(self, total: i32) -> (r: LevelsRequest)
        ensures
            r == (LevelsRequest { total, ..self }),
    {
        LevelsRequest { total, ..self }
    }

    pub fn request_type(self, request_type: LevelRequestType) -> (r: LevelsRequest)
        ensures
            r == (LevelsRequest { request_type, ..self }),
    {
        LevelsRequest { request_type, ..self }
    }

    /// Turns this into a search request for the given string.
    pub fn search(self, search_string: String) -> (r: LevelsRequest)
        ensures
            r == (LevelsRequest {
                search_string,
                request_type: LevelRequestType::Search,
                ..self
            }),
    {
        LevelsRequest { search_string, request_type: LevelRequestType::Search, ..self }
    }

    /// Turns this into a search request for the level with the given id.
    pub fn with_id(self, id: u64) -> (r: LevelsRequest)
        ensures
            r.search_string@ == crate::strutil::dec_rep(id as nat),
            r.request_type == LevelRequestType::Search,
            r == (LevelsRequest {
                search_string: r.search_string,
                request_type: LevelRequestType::Search,
                ..self
            }),
    {
        self.search(u64_to_string(id))
    }

    pub fn with_length(self, length: LevelLength) -> (r: LevelsRequest)
        ensures
            r.lengths@ == self.lengths@.push(length),
            r == (LevelsRequest { lengths: r.lengths, ..self }),
    {
        let mut lengths = self.lengths;
        lengths.push(length);
        LevelsRequest { lengths, ..self }
    }

    pub fn with_rating(self, rating: LevelRating) -> (r: LevelsRequest)
        ensures
            r.ratings@ == self.ratings@.push(rating),
            r == (LevelsRequest { ratings: r.ratings, ..self }),
    {
        let mut ratings = self.ratings;
        ratings.push(rating);
        LevelsRequest { ratings, ..self }
    }

    pub fn demon(self, demon_rating: DemonRating) -> (r: LevelsRequest)
        ensures
            r == (LevelsRequest { demon_rating: Some(demon_rating), ..self }),
    {
        LevelsRequest { demon_rating: Some(demon_rating), ..self }
    }

    /// Sets the force-refresh flag, which bypasses the freshness check.
    pub fn set_force_refresh(&mut self, force_refresh: bool)
        ensures
            *final(self) == (LevelsRequest { force_refresh, ..*old(self) }),
    {
        self.force_refresh = force_refresh;
    }

    /// Advances this request to the next page of results.
    pub fn next(&mut self)
        requires
            old(self).page < u32::MAX,
        ensures
            *final(self) == (LevelsRequest { page: (old(self).page + 1) as u32, ..*old(self) }),
    {
        self.page = self.page + 1;
    }

    /// The page this request asks for.
    pub fn current_page(&self) -> (r: u32)
        ensures
            r == self.page,
    {
        self.page
    }
}

impl Default for LevelsRequest {
    fn default() -> (r: LevelsRequest)
        ensures
            r.request_type == LevelRequestType::Featured,
            r.search_string@ == Seq::<char>::empty(),
            r.lengths@ == Seq::<LevelLength>::empty(),
            r.ratings@ == Seq::<LevelRating>::empty(),
            r.demon_rating is None,
            r.page == 0,
            r.total == 0,
            r.search_filters == SearchFilters::default_spec(),
            r.force_refresh == false,
    {
        LevelsRequest {
            base: BaseRequest::gd_21(),
            request_type: LevelRequestType::Featured,
            search_string: String::new(),
            lengths: Vec::new(),
            ratings: Vec::new(),
            demon_rating: None,
            page: 0,
            total: 0,
            search_filters: SearchFilters::new(),
            force_refresh: false,
        }
    }
}

/// Fingerprints ignore the base request data: rebinding `base` leaves the
/// fingerprint fields unchanged.
pub proof fn lemma_levels_fingerprint_excludes_base(r: LevelsRequest, base: BaseRequest)
    ensures
        (LevelsRequest { base, ..r }).fingerprint_fields() == r.fingerprint_fields(),
{
}

/// The fingerprint section of a levels request for the field with tag `k`.
pub open spec fn levels_section(a: LevelsRequest, k: int) -> Seq<(u64, Seq<u64>)> {
    if k == 1 {
        opt_section(
            a.request_type != LevelRequestType::Featured,
            1,
            seq![request_type_code(a.request_type) as u64],
        )
    } else if k == 2 {
        opt_section(a.search_string@.len() != 0, 2, string_words(a.search_string@))
    } else if k == 3 {
        opt_section(a.lengths@.len() != 0, 3, lengths_words(a.lengths@))
    } else if k == 4 {
        opt_section(a.ratings@.len() != 0, 4, ratings_words(a.ratings@))
    } else if k == 5 {
        opt_section(a.demon_rating is Some, 5, demon_words(a.demon_rating))
    } else if k == 6 {
        opt_section(a.page != 0, 6, seq![a.page as u64])
    } else if k == 7 {
        opt_section(a.total != 0, 7, seq![total_word(a.total)])
    } else if k == 8 {
        opt_section(
            a.search_filters != SearchFilters::default_spec(),
            8,
            filters_payload(a.search_filters),
        )
    } else {
        Seq::empty()
    }
}

/// The first `k` sections of a levels request's fingerprint.
pub open spec fn levels_prefix(a: LevelsRequest, k: int) -> Seq<(u64, Seq<u64>)>
    decreases k,
{
    if k <= 0 {
        Seq::empty()
    } else {
        levels_prefix(a, k - 1) + levels_section(a, k)
    }
}

proof fn lemma_levels_prefix_tags(a: LevelsRequest, k: int)
    requires
        0 <= k <= 8,
    ensures
        tags_below(levels_prefix(a, k), (k + 1) as u64),
    decreases k,
{
    if k == 0 {
        assert(levels_prefix(a, 0) == Seq::<(u64, Seq<u64>)>::empty());
        assert(tags_below(levels_prefix(a, 0), 1));
    } else {
        lemma_levels_prefix_tags(a, k - 1);
        lemma_tags_below_weaken(levels_prefix(a, k - 1), k as u64, (k + 1) as u64);
        assert(tags_below(levels_section(a, k), (k + 1) as u64));
        lemma_tags_below_concat(levels_prefix(a, k - 1), levels_section(a, k), (k + 1) as u64);
    }
}

proof fn lemma_levels_fields_are_prefix(a: LevelsRequest)
    ensures
        a.fingerprint_fields() == levels_prefix(a, 8),
{
    reveal_with_fuel(levels_prefix, 9);
    assert(levels_prefix(a, 1) =~= levels_section(a, 1));
    assert(a.fingerprint_fields() == levels_prefix(a, 8));
}

proof fn lemma_levels_peel8(a: LevelsRequest, b: LevelsRequest)
    requires
        levels_prefix(a, 8) == levels_prefix(b, 8),
    ensures
        levels_prefix(a, 7) == levels_prefix(b, 7),
        a.search_filters == b.search_filters,
{
    lemma_levels_prefix_tags(a, 7);
    lemma_levels_prefix_tags(b, 7);
    lemma_section_cancel(
        a.search_filters != SearchFilters::default_spec(),
        b.search_filters != SearchFilters::default_spec(),
        8,
        filters_payload(a.search_filters),
        filters_payload(b.search_filters),
        levels_prefix(a, 7),
        levels_prefix(b, 7),
    );
    if a.search_filters != SearchFilters::default_spec() {
        lemma_filters_payload_injective(a.search_filters, b.search_filters);
    }
}

proof fn lemma_levels_peel7(a: LevelsRequest, b: LevelsRequest)
    requires
        levels_prefix(a, 7) == levels_prefix(b, 7),
    ensures
        levels_prefix(a, 6) == levels_prefix(b, 6),
        a.total == b.total,
{
    lemma_levels_prefix_tags(a, 6);
    lemma_levels_prefix_tags(b, 6);
    lemma_section_cancel(
        a.total != 0,
        b.total != 0,
        7,
        seq![total_word(a.total)],
        seq![total_word(b.total)],
        levels_prefix(a, 6),
        levels_prefix(b, 6),
    );
    if a.total != 0 {
        assert(seq![total_word(a.total)][0] == seq![total_word(b.total)][0]);
    }
}

proof fn lemma_levels_peel6(a: LevelsRequest, b: LevelsRequest)
    requires
        levels_prefix(a, 6) == levels_prefix(b, 6),
    ensures
        levels_prefix(a, 5) == levels_prefix(b, 5),
        a.page == b.page,
{
    lemma_levels_prefix_tags(a, 5);
    lemma_levels_prefix_tags(b, 5);
    lemma_section_cancel(
        a.page != 0,
        b.page != 0,
        6,
        seq![a.page as u64],
        seq![b.page as u64],
        levels_prefix(a, 5),
        levels_prefix(b, 5),
    );
    if a.page != 0 {
        assert(seq![a.page as u64][0] == seq![b.page as u64][0]);
    }
}

proof fn lemma_levels_peel5(a: LevelsRequest, b: LevelsRequest)
    requires
        levels_prefix(a, 5) == levels_prefix(b, 5),
    ensures
        levels_prefix(a, 4) == levels_prefix(b, 4),
        a.demon_rating == b.demon_rating,
{
    lemma_levels_prefix_tags(a, 4);
    lemma_levels_prefix_tags(b, 4);
    lemma_section_cancel(
        a.demon_rating is Some,
        b.demon_rating is Some,
        5,
        demon_words(a.demon_rating),
        demon_words(b.demon_rating),
        levels_prefix(a, 4),
        levels_prefix(b, 4),
    );
    if a.demon_rating is Some {
        assert(demon_words(a.demon_rating)[0] == demon_words(b.demon_rating)[0]);
    }
}

proof fn lemma_levels_peel4(a: LevelsRequest, b: LevelsRequest)
    requires
        levels_prefix(a, 4) == levels_prefix(b, 4),
    ensures
        levels_prefix(a, 3) == levels_prefix(b, 3),
        a.ratings@ == b.ratings@,
{
    lemma_levels_prefix_tags(a, 3);
    lemma_levels_prefix_tags(b, 3);
    lemma_section_cancel(
        a.ratings@.len() != 0,
        b.ratings@.len() != 0,
        4,
        ratings_words(a.ratings@),
        ratings_words(b.ratings@),
        levels_prefix(a, 3),
        levels_prefix(b, 3),
    );
    if a.ratings@.len() != 0 {
        lemma_ratings_words_injective(a.ratings@, b.ratings@);
    } else {
        assert(a.ratings@ =~= b.ratings@);
    }
}

proof fn lemma_levels_peel3(a: LevelsRequest, b: LevelsRequest)
    requires
        levels_prefix(a, 3) == levels_prefix(b, 3),
    ensures
        levels_prefix(a, 2) == levels_prefix(b, 2),
        a.lengths@ == b.lengths@,
{
    lemma_levels_prefix_tags(a, 2);
    lemma_levels_prefix_tags(b, 2);
    lemma_section_cancel(
        a.lengths@.len() != 0,
        b.lengths@.len() != 0,
        3,
        lengths_words(a.lengths@),
        lengths_words(b.lengths@),
        levels_prefix(a, 2),
        levels_prefix(b, 2),
    );
    if a.lengths@.len() != 0 {
        lemma_lengths_words_injective(a.lengths@, b.lengths@);
    } else {
        assert(a.lengths@ =~= b.lengths@);
    }
}

proof fn lemma_levels_peel2(a: LevelsRequest, b: LevelsRequest)
    requires
        levels_prefix(a, 2) == levels_prefix(b, 2),
    ensures
        levels_prefix(a, 1) == levels_prefix(b, 1),
        a.search_string@ == b.search_string@,
{
    lemma_levels_prefix_tags(a, 1);
    lemma_levels_prefix_tags(b, 1);
    lemma_section_cancel(
        a.search_string@.len() != 0,
        b.search_string@.len() != 0,
        2,
        string_words(a.search_string@),
        string_words(b.search_string@),
        levels_prefix(a, 1),
        levels_prefix(b, 1),
    );
    if a.search_string@.len() != 0 {
        lemma_string_words_injective(a.search_string@, b.search_string@);
    } else {
        assert(a.search_string@ =~= b.search_string@);
    }
}

proof fn lemma_levels_peel1(a: LevelsRequest, b: LevelsRequest)
    requires
        levels_prefix(a, 1) == levels_prefix(b, 1),
    ensures
        a.request_type == b.request_type,
{
    lemma_levels_prefix_tags(a, 0);
    lemma_levels_prefix_tags(b, 0);
    lemma_section_cancel(
        a.request_type != LevelRequestType::Featured,
        b.request_type != LevelRequestType::Featured,
        1,
        seq![request_type_code(a.request_type) as u64],
        seq![request_type_code(b.request_type) as u64],
        levels_prefix(a, 0),
        levels_prefix(b, 0),
    );
    if a.request_type != LevelRequestType::Featured {
        assert(seq![request_type_code(a.request_type) as u64][0] == seq![
            request_type_code(b.request_type) as u64,
        ][0]);
        lemma_request_type_code_injective(a.request_type, b.request_type);
    }
}

/// Equal fingerprints name equal requests: every semantic field of a levels
/// request is recoverable from its fingerprint fields.
pub proof fn lemma_levels_fingerprint_injective(a: LevelsRequest, b: LevelsRequest)
    requires
        a.fingerprint_fields() == b.fingerprint_fields(),
    ensures
        a.request_type == b.request_type,
        a.search_string@ == b.search_string@,
        a.lengths@ == b.lengths@,
        a.ratings@ == b.ratings@,
        a.demon_rating == b.demon_rating,
        a.page == b.page,
        a.total == b.total,
        a.search_filters == b.search_filters,
{
    lemma_levels_fields_are_prefix(a);
    lemma_levels_fields_are_prefix(b);
    lemma_levels_peel8(a, b);
    lemma_levels_peel7(a, b);
    lemma_levels_peel6(a, b);
    lemma_levels_peel5(a, b);
    lemma_levels_peel4(a, b);
    lemma_levels_peel3(a, b);
    lemma_levels_peel2(a, b);
    lemma_levels_peel1(a, b);
}

/// What every cacheable request offers: a result type, a fingerprint and the
/// force-refresh flag.
pub trait Request: Sized {
    /// The type of value the remote returns for this request and the cache
    /// stores under its fingerprint.
    type Result;

    /// The canonical fingerprint fields of this request.
    spec fn fingerprint_fields_spec(&self) -> Seq<(u64, Seq<u64>)>;

    /// The kind marker distinguishing request types in fingerprints.
    spec fn fingerprint_kind(&self) -> u64;

    /// Whether this request bypasses the freshness check.
    spec fn forces_refresh_spec(&self) -> bool;

    /// Computes the fingerprint under which this request's result is cached.
    fn fingerprint(&self) -> (r: Fingerprint)
        ensures
            r@ == (self.fingerprint_kind(), self.fingerprint_fields_spec()),
    ;

    /// Whether this request bypasses the freshness check.
    fn forces_refresh(&self) -> (r: bool)
        ensures
            r == self.forces_refresh_spec(),
    ;
}

fn one_word(w: u64) -> (r: Vec<u64>)
    ensures
        r@ == seq![w],
{
    let mut v: Vec<u64> = Vec::new();
    v.push(w);
    proof {
        assert(v@ =~= seq![w]);
    }
    v
}

impl Request for LevelRequest {
    type Result = Level<Option<u64>, u64>;

    open spec fn fingerprint_fields_spec(&self) -> Seq<(u64, Seq<u64>)> {
        self.fingerprint_fields()
    }

    open spec fn fingerprint_kind(&self) -> u64 {
        1
    }

    open spec fn forces_refresh_spec(&self) -> bool {
        self.force_refresh
    }

    fn fingerprint(&self) -> (r: Fingerprint)
        ensures
            r@ == (1u64, self.fingerprint_fields()),
    {
        let ghost s1 = opt_section(self.level_id != 0, 1, seq![self.level_id]);
        let ghost s2 = opt_section(self.inc, 2, seq![1u64]);
        let ghost s3 = opt_section(self.extra, 3, seq![1u64]);
        let mut fields: Vec<(u64, Vec<u64>)> = Vec::new();
        if self.level_id != 0 {
            let ghost prev = fields@;
            let w = one_word(self.level_id);
            let ghost p = (1u64, w);
            fields.push((1, w));
            proof {
                lemma_pairs_view_push(prev, p);
                assert(pairs_view(fields@) =~= s1);
            }
        }
        proof {
            assert(pairs_view(fields@) =~= s1);
        }
        if self.inc {
            let ghost prev = fields@;
            let w = one_word(1);
            let ghost p = (2u64, w);
            fields.push((2, w));
            proof {
                lemma_pairs_view_push(prev, p);
                assert(pairs_view(fields@) =~= s1 + s2);
            }
        }
        proof {
            assert(pairs_view(fields@) =~= s1 + s2);
        }
        if self.extra {
            let ghost prev = fields@;
            let w = one_word(1);
            let ghost p = (3u64, w);
            fields.push((3, w));
            proof {
                lemma_pairs_view_push(prev, p);
                assert(pairs_view(fields@) =~= s1 + s2 + s3);
            }
        }
        proof {
            assert(pairs_view(fields@) =~= s1 + s2 + s3);
        }
        let r = Fingerprint { kind: 1, fields };
        r
    }

    fn forces_refresh(&self) -> (r: bool)
        ensures
            r == self.force_refresh,
    {
        self.force_refresh
    }
}

fn string_payload(s: &String) -> (r: Vec<u64>)
    ensures
        r@ == string_words(s@),
{
    let bytes = s.as_str().as_bytes();
    let n = bytes.len();
    let mut r: Vec<u64> = Vec::new();
    let mut i: usize = 0;
    while i < n
        invariant
            bytes@ == vstd::utf8::encode_utf8(s@),
            n == bytes@.len(),
            i <= n,
            r@.len() == i,
            forall|j: int| 0 <= j < i ==> r@[j] == bytes@[j] as u64,
        decreases n - i,
    {
        let b = bytes[i];
        r.push(b as u64);
        i += 1;
    }
    proof {
        reveal(string_words);
        assert(r@ =~= string_words(s@));
    }
    r
}

fn lengths_payload(s: &Vec<LevelLength>) -> (r: Vec<u64>)
    ensures
        r@ == lengths_words(s@),
{
    let mut r: Vec<u64> = Vec::new();
    let mut i: usize = 0;
    while i < s.len()
        invariant
            i <= s@.len(),
            r@.len() == i,
            forall|j: int| 0 <= j < i ==> r@[j] == length_code(s@[j]),
        decreases s@.len() - i,
    {
        let code: u64 = match s[i] {
            LevelLength::Tiny => 0,
            LevelLength::Short => 1,
            LevelLength::Medium => 2,
            LevelLength::Long => 3,
            LevelLength::ExtraLong => 4,
        };
        r.push(code);
        i += 1;
    }
    proof {
        reveal(lengths_words);
        assert(r@ =~= lengths_words(s@));
    }
    r
}

fn rating_code_exec(r: LevelRating) -> (c: u64)
    ensures
        c == rating_code(r),
{
    match r {
        LevelRating::NotAvailable => 0,
        LevelRating::Auto => 1,
        LevelRating::Easy => 2,
        LevelRating::Normal => 3,
        LevelRating::Hard => 4,
        LevelRating::Harder => 5,
        LevelRating::Insane => 6,
        LevelRating::Demon(d) => match d {
            DemonRating::Easy => 10,
            DemonRating::Medium => 11,
            DemonRating::Hard => 12,
            DemonRating::Insane => 13,
            DemonRating::Extreme => 14,
        },
    }
}

fn ratings_payload(s: &Vec<LevelRating>) -> (r: Vec<u64>)
    ensures
        r@ == ratings_words(s@),
{
    let mut r: Vec<u64> = Vec::new();
    let mut i: usize = 0;
    while i < s.len()
        invariant
            i <= s@.len(),
            r@.len() == i,
            forall|j: int| 0 <= j < i ==> r@[j] == rating_code(s@[j]),
        decreases s@.len() - i,
    {
        let code = rating_code_exec(s[i]);
        r.push(code);
        i += 1;
    }
    proof {
        reveal(ratings_words);
        assert(r@ =~= ratings_words(s@));
    }
    r
}

fn bool_word_exec(b: bool) -> (r: u64)
    ensures
        r == bool_word(b),
{
    if b {
        1
    } else {
        0
    }
}

#[verifier::rlimit(50)]
#[verifier::spinoff_prover]
fn filters_payload_exec(f: &SearchFilters) -> (r: Vec<u64>)
    ensures
        r@ == filters_payload(*f),
{
    let mut r: Vec<u64> = Vec::new();
    r.push(bool_word_exec(f.uncompleted));
    r.push(bool_word_exec(f.completed));
    r.push(bool_word_exec(f.featured));
    r.push(bool_word_exec(f.original));
    r.push(bool_word_exec(f.two_player));
    r.push(bool_word_exec(f.coins));
    r.push(bool_word_exec(f.epic));
    r.push(bool_word_exec(f.rated));
    match f.song {
        None => {
            r.push(0);
            r.push(0);
        },
        Some(SongFilter::Main(id)) => {
            r.push(1);
            r.push(id as u64);
        },
        Some(SongFilter::Custom(id)) => {
            r.push(2);
            r.push(id);
        },
    }
    proof {
        reveal(filters_payload);
        assert(r@ =~= filters_payload(*f));
    }
    r
}

impl Request for LevelsRequest {
    type Result = Vec<PartialLevel<Option<u64>, u64>>;

    open spec fn fingerprint_fields_spec(&self) -> Seq<(u64, Seq<u64>)> {
        self.fingerprint_fields()
    }

    open spec fn fingerprint_kind(&self) -> u64 {
        2
    }

    open spec fn forces_refresh_spec(&self) -> bool {
        self.force_refresh
    }

    #[verifier::rlimit(50)]
    #[verifier::spinoff_prover]
    fn fingerprint(&self) -> (r: Fingerprint)
        ensures
            r@ == (2u64, self.fingerprint_fields()),
    {
        let ghost s1 = opt_section(
            self.request_type != LevelRequestType::Featured,
            1,
            seq![request_type_code(self.request_type) as u64],
        );
        let ghost s2 = opt_section(
            self.search_string@.len() != 0,
            2,
            string_words(self.search_string@),
        );
        let ghost s3 = opt_section(self.lengths@.len() != 0, 3, lengths_words(self.lengths@));
        let ghost s4 = opt_section(self.ratings@.len() != 0, 4, ratings_words(self.ratings@));
        let ghost s5 = opt_section(self.demon_rating is Some, 5, demon_words(self.demon_rating));
        let ghost s6 = opt_section(self.page != 0, 6, seq![self.page as u64]);
        let ghost s7 = opt_section(self.total != 0, 7, seq![total_word(self.total)]);
        let ghost s8 = opt_section(
            self.search_filters != SearchFilters::default_spec(),
            8,
            filters_payload(self.search_filters),
        );
        let ghost c1 = s1;
        let ghost c2 = c1 + s2;
        let ghost c3 = c2 + s3;
        let ghost c4 = c3 + s4;
        let ghost c5 = c4 + s5;
        let ghost c6 = c5 + s6;
        let ghost c7 = c6 + s7;
        let ghost c8 = c7 + s8;
        let mut fields: Vec<(u64, Vec<u64>)> = Vec::new();
        if !matches!(self.request_type, LevelRequestType::Featured) {
            let ghost prev = fields@;
            let code: i32 = self.request_type.code();
            let w = one_word(code as u64);
            let ghost p = (1u64, w);
            fields.push((1, w));
            proof {
                assert(pairs_view(fields@) == c1) by {
                    lemma_pairs_view_push(prev, p);
                    assert(pairs_view(prev) =~= Seq::<(u64, Seq<u64>)>::empty());
                    assert(pairs_view(fields@) =~= s1);
                }
            }
        } else {
            proof {
                assert(pairs_view(fields@) == c1) by {
                    assert(pairs_view(fields@) =~= Seq::<(u64, Seq<u64>)>::empty());
                    assert(pairs_view(fields@) =~= s1);
                }
            }
        }
        if self.search_string.as_str().unicode_len() != 0 {
            let ghost prev = fields@;
            let w = string_payload(&self.search_string);
            let ghost p = (2u64, w);
            fields.push((2, w));
            proof {
                assert(pairs_view(fields@) == c2) by {
                    lemma_pairs_view_push(prev, p);
                    assert(s2 =~= seq![(2u64, w@)]);
                    assert(c1.push((2u64, w@)) =~= c1 + seq![(2u64, w@)]);
                }
            }
        } else {
            proof {
                assert(pairs_view(fields@) == c2) by {
                    assert(c2 =~= c1);
                }
            }
        }
        if self.lengths.len() != 0 {
            let ghost prev = fields@;
            let w = lengths_payload(&self.lengths);
            let ghost p = (3u64, w);
            fields.push((3, w));
            proof {
                assert(pairs_view(fields@) == c3) by {
                    lemma_pairs_view_push(prev, p);
                    assert(s3 =~= seq![(3u64, w@)]);
                    assert(c2.push((3u64, w@)) =~= c2 + seq![(3u64, w@)]);
                }
            }
        } else {
            proof {
                assert(pairs_view(fields@) == c3) by {
                    assert(c3 =~= c2);
                }
            }
        }
        if self.ratings.len() != 0 {
            let ghost prev = fields@;
            let w = ratings_payload(&self.ratings);
            let ghost p = (4u64, w);
            fields.push((4, w));
            proof {
                assert(pairs_view(fields@) == c4) by {
                    lemma_pairs_view_push(prev, p);
                    assert(s4 =~= seq![(4u64, w@)]);
                    assert(c3.push((4u64, w@)) =~= c3 + seq![(4u64, w@)]);
                }
            }
        } else {
            proof {
                assert(pairs_view(fields@) == c4) by {
                    assert(c4 =~= c3);
                }
            }
        }
        match self.demon_rating {
            Some(d) => {
                let ghost prev = fields@;
                let code: u64 = match d {
                    DemonRating::Easy => 0,
                    DemonRating::Medium => 1,
                    DemonRating::Hard => 2,
                    DemonRating::Insane => 3,
                    DemonRating::Extreme => 4,
                };
                let w = one_word(code);
                let ghost p = (5u64, w);
                fields.push((5, w));
                proof {
                    assert(pairs_view(fields@) == c5) by {
                        lemma_pairs_view_push(prev, p);
                        assert(s5 =~= seq![(5u64, w@)]);
                        assert(c4.push((5u64, w@)) =~= c4 + seq![(5u64, w@)]);
                    }
                }
            },
            None => {
                proof {
                    assert(pairs_view(fields@) == c5) by {
                        assert(c5 =~= c4);
                    }
                }
            },
        }
        if self.page != 0 {
            let ghost prev = fields@;
            let w = one_word(self.page as u64);
            let ghost p = (6u64, w);
            fields.push((6, w));
            proof {
                assert(pairs_view(fields@) == c6) by {
                    lemma_pairs_view_push(prev, p);
                    assert(s6 =~= seq![(6u64, w@)]);
                    assert(c5.push((6u64, w@)) =~= c5 + seq![(6u64, w@)]);
                }
            }
        } else {
            proof {
                assert(pairs_view(fields@) == c6) by {
                    assert(c6 =~= c5);
                }
            }
        }
        if self.total != 0 {
            let ghost prev = fields@;
            let shifted: i64 = self.total as i64 + 0x8000_0000i64;
            let w = one_word(shifted as u64);
            let ghost p = (7u64, w);
            fields.push((7, w));
            proof {
                assert(pairs_view(fields@) == c7) by {
                    lemma_pairs_view_push(prev, p);
                    assert(w@ == seq![total_word(self.total)]);
                    assert(s7 =~= seq![(7u64, w@)]);
                    assert(c6.push((7u64, w@)) =~= c6 + seq![(7u64, w@)]);
                }
            }
        } else {
            proof {
                assert(pairs_view(fields@) == c7) by {
                    assert(c7 =~= c6);
                }
            }
        }
        let default_filters = SearchFilters::new();
        if self.search_filters != default_filters {
            let ghost prev = fields@;
            let w = filters_payload_exec(&self.search_filters);
            let ghost p = (8u64, w);
            fields.push((8, w));
            proof {
                assert(pairs_view(fields@) == c8) by {
                    lemma_pairs_view_push(prev, p);
                    assert(s8 =~= seq![(8u64, w@)]);
                    assert(c7.push((8u64, w@)) =~= c7 + seq![(8u64, w@)]);
                }
            }
        } else {
            proof {
                assert(pairs_view(fields@) == c8) by {
                    assert(c8 =~= c7);
                }
            }
        }
        let r = Fingerprint { kind: 2, fields };
        proof {
            assert(self.fingerprint_fields() == c8);
        }
        r
    }

    fn forces_refresh(&self) -> (r: bool)
        ensures
            r == self.force_refresh,
    {
        self.force_refresh
    }
}


fn copy_lengths(v: &Vec<LevelLength>) -> (r: Vec<LevelLength>)
    ensures
        r@ == v@,
{
    let mut r: Vec<LevelLength> = Vec::new();
    let mut i: usize = 0;
    while i < v.len()
        invariant
            i <= v@.len(),
            r@ == v@.take(i as int),
        decreases v@.len() - i,
    {
        r.push(v[i]);
        proof {
            assert(v@.take(i + 1) =~= v@.take(i as int).push(v@[i as int]));
        }
        i += 1;
    }
    proof {
        assert(v@.take(v@.len() as int) =~= v@);
    }
    r
}

fn copy_ratings(v: &Vec<LevelRating>) -> (r: Vec<LevelRating>)
    ensures
        r@ == v@,
{
    let mut r: Vec<LevelRating> = Vec::new();
    let mut i: usize = 0;
    while i < v.len()
        invariant
            i <= v@.len(),
            r@ == v@.take(i as int),
        decreases v@.len() - i,
    {
        r.push(v[i]);
        proof {
            assert(v@.take(i + 1) =~= v@.take(i as int).push(v@[i as int]));
        }
        i += 1;
    }
    proof {
        assert(v@.take(v@.len() as int) =~= v@);
    }
    r
}

impl BaseRequest {
    /// An exact copy of this base request.
    pub fn duplicate(&self) -> (r: BaseRequest)
        ensures
            r == *self,
    {
        BaseRequest {
            game_version: self.game_version,
            binary_version: self.binary_version,
            secret: self.secret.clone(),
        }
    }
}

/// Content equality of two level-list requests: every semantic field and the
/// base agree; the vector and string fields agree as sequences.
pub open spec fn req_equiv(a: LevelsRequest, b: LevelsRequest) -> bool {
    &&& a.base == b.base
    &&& a.request_type == b.request_type
    &&& a.search_string@ == b.search_string@
    &&& a.lengths@ == b.lengths@
    &&& a.ratings@ == b.ratings@
    &&& a.demon_rating == b.demon_rating
    &&& a.page == b.page
    &&& a.total == b.total
    &&& a.search_filters == b.search_filters
    &&& a.force_refresh == b.force_refresh
}

/// Content-equal requests have the same fingerprint: the fingerprint reads
/// nothing but the semantic content.
pub proof fn lemma_req_equiv_same_fingerprint(a: LevelsRequest, b: LevelsRequest)
    requires
        req_equiv(a, b),
    ensures
        a.fingerprint_fields() == b.fingerprint_fields(),
{
}

/// `next` is `orig` advanced by one page, with every other field unchanged.
pub open spec fn advanced_page(next: LevelsRequest, orig: LevelsRequest) -> bool {
    &&& next.page == orig.page + 1
    &&& req_equiv((LevelsRequest { page: orig.page, ..next }), orig)
}

impl LevelsRequest {
    /// A content-equal copy of this request.
    pub fn duplicate(&self) -> (r: LevelsRequest)
        ensures
            req_equiv(r, *self),
    {
        LevelsRequest {
            base: self.base.duplicate(),
            request_type: self.request_type,
            search_string: self.search_string.clone(),
            lengths: copy_lengths(&self.lengths),
            ratings: copy_ratings(&self.ratings),
            demon_rating: self.demon_rating,
            page: self.page,
            total: self.total,
            search_filters: self.search_filters,
            force_refresh: self.force_refresh,
        }
    }
}

} // verus!
