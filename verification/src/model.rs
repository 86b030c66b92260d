use vstd::prelude::*;
use std::sync::Arc;

verus! {

/// Relies on `Arc::clone`: the result is a pointer to the same allocation,
/// so at the specification level it equals the original.
#[verifier::external_body]
pub(crate) fn arc_dup<T>(v: &Arc<T>) -> (r: Arc<T>)
    ensures
        r == *v,
{
    Arc::clone(v)
}

/// An exact copy of an optional string.
fn clone_opt_string(v: &Option<String>) -> (r: Option<String>)
    ensures
        r == *v,
{
    match v {
        Some(x) => Some(x.clone()),
        None => None,
    }
}

/// Version of the Geometry Dash client, as attached to levels and requests.
#[derive(Debug, Clone, Copy, PartialEq, Eq, Structural)]
pub enum GameVersion {
    /// Levels uploaded before the game started tracking versions.
    Unknown,
    /// A concrete version in the form `major.minor`.
    Version { minor: u8, major: u8 },
}

/// Rating of a demon-difficulty level.
#[derive(Debug, Clone, Copy, PartialEq, Eq, Structural)]
pub enum DemonRating {
    Easy,
    Medium,
    Hard,
    Insane,
    Extreme,
}

/// Difficulty rating of a level.
#[derive(Debug, Clone, Copy, PartialEq, Eq, Structural)]
pub enum LevelRating {
    NotAvailable,
    Auto,
    Easy,
    Normal,
    Hard,
    Harder,
    Insane,
    Demon(DemonRating),
}

/// Length class of a level.
#[derive(Debug, Clone, Copy, PartialEq, Eq, Structural)]
pub enum LevelLength {
    Tiny,
    Short,
    Medium,
    Long,
    ExtraLong,
}

/// Featured state of a level; the payload is the featured weight.
#[derive(Debug, Clone, Copy, PartialEq, Eq, Structural)]
pub enum Featured {
    NotFeatured,
    Unfeatured,
    Featured(u32),
}

/// Copy-protection password of a downloaded level.
#[derive(Debug, Clone, PartialEq, Eq)]
pub enum Password {
    /// The level cannot be copied.
    NoCopy,
    /// The level can be copied freely.
    FreeCopy,
    /// The level can be copied with the given password.
    PasswordCopy(String),
}

/// One of the songs built into the game.
#[derive(Debug, Clone, PartialEq, Eq)]
pub struct MainSong {
    pub main_song_id: u8,
    pub name: String,
    pub artist: String,
}

/// A song uploaded to Newgrounds, as embedded in level-list responses.
///
/// The file size reported by the remote is kept in whole bytes.
#[derive(Debug, Clone, PartialEq)]
pub struct NewgroundsSong {
    pub song_id: u64,
    pub name: String,
    pub artist: String,
    pub filesize_bytes: u64,
    pub link: String,
}

/// The lightweight creator stub embedded in level-list responses.
#[derive(Debug, Clone, PartialEq)]
pub struct Creator {
    pub user_id: u64,
    pub name: String,
    pub account_id: Option<u64>,
}

/// A full user profile.
#[derive(Debug, Clone, PartialEq)]
pub struct User {
    pub name: String,
    pub user_id: u64,
    pub stars: u32,
    pub demons: u16,
    pub creator_points: u16,
    pub account_id: u64,
}

/// A level as it appears in level-list responses, without its full data.
///
/// The `Song` and `User` parameters encode the upgrade state of the song and
/// creator slots: the thin form keeps ids (`Option<u64>` and `u64`), the thick
/// forms keep embedded `Option<NewgroundsSong>`, `Option<Creator>` or
/// `Option<User>` values.
#[derive(Debug, Clone, PartialEq)]
pub struct PartialLevel<Song, User> {
    pub level_id: u64,
    pub name: String,
    pub description: Option<String>,
    pub version: u32,
    pub creator: User,
    pub difficulty: LevelRating,
    pub downloads: u32,
    pub main_song: Option<MainSong>,
    pub gd_version: GameVersion,
    pub likes: i32,
    pub length: LevelLength,
    pub stars: u8,
    pub featured: Featured,
    pub index_31: Option<String>,
    pub copy_of: Option<u64>,
    pub coin_amount: u8,
    pub coins_verified: bool,
    pub stars_requested: Option<u8>,
    pub index_40: Option<String>,
    pub is_epic: bool,
    pub index_43: String,
    pub object_amount: Option<u32>,
    pub index_46: String,
    pub index_47: String,
    pub custom_song: Song,
}

/// A fully downloaded level, with the same slot parameters as
/// [`PartialLevel`].
#[derive(Debug, Clone, PartialEq)]
pub struct Level<Song, User> {
    pub base: PartialLevel<Song, User>,
    /// The raw, compressed level data.  It can be large and the framework
    /// copies values on every cache read, so it is shared rather than
    /// duplicated.
    pub level_data: Arc<Vec<u8>>,
    pub password: Password,
    pub time_since_update: String,
    pub time_since_upload: String,
    pub index_36: String,
}

impl<Song, User> PartialLevel<Song, User> {
    /// The same level with the song slot rebound to `song`, every other field
    /// unchanged.
    pub open spec fn with_song<S2>(self, song: S2) -> PartialLevel<S2, User> {
        PartialLevel {
            custom_song: song,
            level_id: self.level_id,
            name: self.name,
            description: self.description,
            version: self.version,
            creator: self.creator,
            difficulty: self.difficulty,
            downloads: self.downloads,
            main_song: self.main_song,
            gd_version: self.gd_version,
            likes: self.likes,
            length: self.length,
            stars: self.stars,
            featured: self.featured,
            index_31: self.index_31,
            copy_of: self.copy_of,
            coin_amount: self.coin_amount,
            coins_verified: self.coins_verified,
            stars_requested: self.stars_requested,
            index_40: self.index_40,
            is_epic: self.is_epic,
            index_43: self.index_43,
            object_amount: self.object_amount,
            index_46: self.index_46,
            index_47: self.index_47,
        }
    }

    /// The same level with the creator slot rebound to `user`, every other
    /// field unchanged.
    pub open spec fn with_user<U2>(self, user: U2) -> PartialLevel<Song, U2> {
        PartialLevel {
            creator: user,
            level_id: self.level_id,
            name: self.name,
            description: self.description,
            version: self.version,
            custom_song: self.custom_song,
            difficulty: self.difficulty,
            downloads: self.downloads,
            main_song: self.main_song,
            gd_version: self.gd_version,
            likes: self.likes,
            length: self.length,
            stars: self.stars,
            featured: self.featured,
            index_31: self.index_31,
            copy_of: self.copy_of,
            coin_amount: self.coin_amount,
            coins_verified: self.coins_verified,
            stars_requested: self.stars_requested,
            index_40: self.index_40,
            is_epic: self.is_epic,
            index_43: self.index_43,
            object_amount: self.object_amount,
            index_46: self.index_46,
            index_47: self.index_47,
        }
    }
}

impl<Song, User> Level<Song, User> {
    /// The same level with the song slot of its base rebound to `song`.
    pub open spec fn with_song<S2>(self, song: S2) -> Level<S2, User> {
        Level {
            base: self.base.with_song(song),
            level_data: self.level_data,
            password: self.password,
            time_since_update: self.time_since_update,
            time_since_upload: self.time_since_upload,
            index_36: self.index_36,
        }
    }

    /// The same level with the creator slot of its base rebound to `user`.
    pub open spec fn with_user<U2>(self, user: U2) -> Level<Song, U2> {
        Level {
            base: self.base.with_user(user),
            level_data: self.level_data,
            password: self.password,
            time_since_update: self.time_since_update,
            time_since_upload: self.time_since_upload,
            index_36: self.index_36,
        }
    }
}

/// Rebinds the song slot of a partial level, returning the evicted old value.
/// This is the pure transform on which the upgrade and downgrade directions of
/// the song relation are both built.
pub fn change_partial_level_song<OldSong, NewSong, User>(
    partial_level: PartialLevel<OldSong, User>,
    new_song: NewSong,
) -> (r: (PartialLevel<NewSong, User>, OldSong))
    ensures
        r.0 == partial_level.with_song(new_song),
        r.1 == partial_level.custom_song,
        partial_level == r.0.with_song(r.1),
{
    let PartialLevel {
        level_id,
        name,
        description,
        version,
        difficulty,
        downloads,
        main_song,
        gd_version,
        likes,
        length,
        stars,
        featured,
        index_31,
        copy_of,
        coin_amount,
        coins_verified,
        stars_requested,
        index_40,
        is_epic,
        index_43,
        object_amount,
        index_46,
        index_47,
        creator,
        custom_song,
    } = partial_level;

    (
        PartialLevel {
            custom_song: new_song,
            level_id,
            name,
            description,
            version,
            creator,
            difficulty,
            downloads,
            main_song,
            gd_version,
            likes,
            length,
            stars,
            featured,
            index_31,
            copy_of,
            coin_amount,
            coins_verified,
            stars_requested,
            index_40,
            is_epic,
            index_43,
            object_amount,
            index_46,
            index_47,
        },
        custom_song,
    )
}

/// Rebinds the creator slot of a partial level, returning the evicted old
/// value.
pub fn change_partial_level_user<OldUser, NewUser, Song>(
    partial_level: PartialLevel<Song, OldUser>,
    new_user: NewUser,
) -> (r: (PartialLevel<Song, NewUser>, OldUser))
    ensures
        r.0 == partial_level.with_user(new_user),
        r.1 == partial_level.creator,
        partial_level == r.0.with_user(r.1),
{
    let PartialLevel {
        level_id,
        name,
        description,
        version,
        difficulty,
        downloads,
        main_song,
        gd_version,
        likes,
        length,
        stars,
        featured,
        index_31,
        copy_of,
        coin_amount,
        coins_verified,
        stars_requested,
        index_40,
        is_epic,
        index_43,
        object_amount,
        index_46,
        index_47,
        custom_song,
        creator,
    } = partial_level;

    (
        PartialLevel {
            creator: new_user,
            level_id,
            name,
            description,
            version,
            custom_song,
            difficulty,
            downloads,
            main_song,
            gd_version,
            likes,
            length,
            stars,
            featured,
            index_31,
            copy_of,
            coin_amount,
            coins_verified,
            stars_requested,
            index_40,
            is_epic,
            index_43,
            object_amount,
            index_46,
            index_47,
        },
        creator,
    )
}

/// Rebinds the creator slot of a full level, returning the evicted old value.
pub fn change_level_user<OldUser, NewUser, Song>(
    level: Level<Song, OldUser>,
    new_user: NewUser,
) -> (r: (Level<Song, NewUser>, OldUser))
    ensures
        r.0 == level.with_user(new_user),
        r.1 == level.base.creator,
        level == r.0.with_user(r.1),
{
    let Level { base, level_data, password, time_since_update, time_since_upload, index_36 } =
        level;

    let (new_base, old_user) = change_partial_level_user(base, new_user);

    (
        Level {
            base: new_base,
            level_data,
            password,
            time_since_update,
            time_since_upload,
            index_36,
        },
        old_user,
    )
}

/// Rebinds the song slot of a full level, returning the evicted old value.
pub fn change_level_song<OldSong, NewSong, User>(
    level: Level<OldSong, User>,
    new_song: NewSong,
) -> (r: (Level<NewSong, User>, OldSong))
    ensures
        r.0 == level.with_song(new_song),
        r.1 == level.base.custom_song,
        level == r.0.with_song(r.1),
{
    let Level { base, level_data, password, time_since_update, time_since_upload, index_36 } =
        level;

    let (new_base, old_song) = change_partial_level_song(base, new_song);

    (
        Level {
            base: new_base,
            level_data,
            password,
            time_since_update,
            time_since_upload,
            index_36,
        },
        old_song,
    )
}

impl MainSong {
    /// An exact copy of this song.
    pub fn duplicate(&self) -> (r: MainSong)
        ensures
            r == *self,
    {
        MainSong {
            main_song_id: self.main_song_id,
            name: self.name.clone(),
            artist: self.artist.clone(),
        }
    }
}

impl NewgroundsSong {
    /// An exact copy of this song.
    pub fn duplicate(&self) -> (r: NewgroundsSong)
        ensures
            r == *self,
    {
        NewgroundsSong {
            song_id: self.song_id,
            name: self.name.clone(),
            artist: self.artist.clone(),
            filesize_bytes: self.filesize_bytes,
            link: self.link.clone(),
        }
    }
}

impl Creator {
    /// An exact copy of this creator.
    pub fn duplicate(&self) -> (r: Creator)
        ensures
            r == *self,
    {
        Creator { user_id: self.user_id, name: self.name.clone(), account_id: self.account_id }
    }
}

impl Password {
    /// An exact copy of this password.
    pub fn duplicate(&self) -> (r: Password)
        ensures
            r == *self,
    {
        match self {
            Password::NoCopy => Password::NoCopy,
            Password::FreeCopy => Password::FreeCopy,
            Password::PasswordCopy(p) => Password::PasswordCopy(p.clone()),
        }
    }
}

impl PartialLevel<Option<u64>, u64> {
    /// An exact copy of this thin partial level.
    pub fn duplicate(&self) -> (r: PartialLevel<Option<u64>, u64>)
        ensures
            r == *self,
    {
        PartialLevel {
            level_id: self.level_id,
            name: self.name.clone(),
            description: clone_opt_string(&self.description),
            version: self.version,
            creator: self.creator,
            difficulty: self.difficulty,
            downloads: self.downloads,
            main_song: match &self.main_song {
                Some(m) => Some(m.duplicate()),
                None => None,
            },
            gd_version: self.gd_version,
            likes: self.likes,
            length: self.length,
            stars: self.stars,
            featured: self.featured,
            index_31: clone_opt_string(&self.index_31),
            copy_of: self.copy_of,
            coin_amount: self.coin_amount,
            coins_verified: self.coins_verified,
            stars_requested: self.stars_requested,
            index_40: clone_opt_string(&self.index_40),
            is_epic: self.is_epic,
            index_43: self.index_43.clone(),
            object_amount: self.object_amount,
            index_46: self.index_46.clone(),
            index_47: self.index_47.clone(),
            custom_song: self.custom_song,
        }
    }
}

impl Level<Option<u64>, u64> {
    /// An exact copy of this thin level; the level data is shared.
    pub fn duplicate(&self) -> (r: Level<Option<u64>, u64>)
        ensures
            r == *self,
    {
        Level {
            base: self.base.duplicate(),
            level_data: arc_dup(&self.level_data),
            password: self.password.duplicate(),
            time_since_update: self.time_since_update.clone(),
            time_since_upload: self.time_since_upload.clone(),
            index_36: self.index_36.clone(),
        }
    }
}


/// What gunzip decompression yields for the given bytes, as text; the
/// result depends on the bytes alone.
pub uninterp spec fn gunzip(data: Seq<u8>) -> Option<Seq<char>>;

/// Relies on flate2's `GzDecoder` together with std's `read_to_string`:
/// decompressing a byte buffer to text computes a pure function of the
/// bytes.
#[verifier::external_body]
fn gunzip_to_string(data: &Vec<u8>) -> (r: Option<String>)
    ensures
        match r {
            Some(s) => gunzip(data@) == Some(s@),
            None => gunzip(data@) is None,
        },
{
    let mut s = String::new();
    let mut d = flate2::read::GzDecoder::new(&data[..]);
    match std::io::Read::read_to_string(&mut d, &mut s) {
        Ok(_) => Some(s),
        Err(_) => None,
    }
}

impl<Song, User> Level<Song, User> {
    /// Decompresses the level's raw data to text.
    pub fn decompress_data(&self) -> (r: Option<String>)
        ensures
            match r {
                Some(s) => gunzip(self.level_data@) == Some(s@),
                None => gunzip(self.level_data@) is None,
            },
    {
        gunzip_to_string(&self.level_data)
    }
}


/// The starting or portal-set speed of a level.
#[derive(Debug, Clone, Copy, PartialEq, Eq, Structural)]
pub enum Speed {
    Slow,
    Normal,
    Medium,
    Fast,
    VeryFast,
}

/// The kind of a portal object.
#[derive(Debug, Clone, Copy, PartialEq, Eq, Structural)]
pub enum PortalType {
    Speed(Speed),
}

/// The data of a portal object.
#[derive(Debug, Clone, Copy, PartialEq, Eq, Structural)]
pub struct PortalData {
    pub checked: bool,
    pub portal_type: PortalType,
}

/// The metadata section of decompressed level data.
#[derive(Debug, Clone, Copy, PartialEq, Eq, Structural)]
pub struct LevelMetadata {
    pub starting_speed: Speed,
}

impl Default for LevelMetadata {
    fn default() -> (r: LevelMetadata)
        ensures
            r.starting_speed == Speed::Normal,
    {
        LevelMetadata { starting_speed: Speed::Normal }
    }
}

/// The object-specific payload of one level object.
#[derive(Debug, Clone, Copy, PartialEq, Eq, Structural)]
pub enum ObjectData {
    /// An object without payload of interest.
    Plain,
    /// A portal object.
    Portal(PortalData),
}

/// Aggregate statistics of a level's objects.
#[derive(Debug, Clone, Copy, PartialEq, Eq, Structural)]
pub struct Stats {
    /// The level's play duration, in whole seconds.
    pub duration_secs: u64,
    pub object_count: u64,
}

/// Any object the remote can hand back inside a response.
#[derive(Debug, Clone, PartialEq)]
pub enum GDObject {
    NewgroundsSong(NewgroundsSong),
    PartialLevel(PartialLevel<Option<u64>, u64>),
    Level(Level<Option<u64>, u64>),
}

} // verus!
