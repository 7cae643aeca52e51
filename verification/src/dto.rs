//! Wire-facing contract types and their conversions to and from the
//! internal domain models.
//!
//! Inbound payloads are deserialized into these shapes by the
//! serialization boundary, converted here into internal values, and handed
//! to a collaborator; outbound values travel the opposite way. Every
//! conversion is pure and total: no field value can make one fail.

use vstd::prelude::*;
use crate::config;
use crate::ddns;
use crate::index;
use crate::settings;
use crate::thumbnail;
use crate::user;
use crate::vfs;

verus! {

/// Major half of the advertised API capability version.
pub const API_MAJOR_VERSION: i32 = 6;

/// Minor half of the advertised API capability version.
pub const API_MINOR_VERSION: i32 = 1;

/// The API capability version pair. Compared by equality only.
#[derive(Debug, PartialEq, Eq)]
pub struct Version {
    pub major: i32,
    pub minor: i32,
}

/// Whether any user account exists yet; a read-only signal computed ad hoc
/// by the caller.
#[derive(Debug, PartialEq, Eq)]
pub struct InitialSetup {
    pub has_any_users: bool,
}

/// A transient username/password pair; never persisted in this shape.
#[derive(Clone, Debug, PartialEq, Eq)]
pub struct Credentials {
    pub username: String,
    pub password: String,
}

/// The result of a successful authentication, serialized outward.
#[derive(Clone, Debug, PartialEq, Eq)]
pub struct Authorization {
    pub username: String,
    pub token: String,
    pub is_admin: bool,
}

/// An authentication token carried in query parameters.
#[derive(Clone, Debug, PartialEq, Eq)]
pub struct AuthQueryParameters {
    pub auth_token: String,
}

/// Requested thumbnail parameters. Each field is independently optional:
/// absence means "use the internal default", not "unset the field".
#[derive(Clone, Copy, Debug, PartialEq, Eq)]
pub struct ThumbnailOptions {
    pub size: Option<ThumbnailSize>,
    pub pad: Option<bool>,
}

/// The enumerated thumbnail sizes offered on the wire.
#[derive(Clone, Copy, Debug, PartialEq, Eq)]
pub enum ThumbnailSize {
    Small,
    Large,
    Native,
}

impl ThumbnailSize {
    /// The fixed pixel bound each size stands for; `Native` alone maps to
    /// "no bound", which is distinct from every finite bound.
    pub open spec fn spec_max_dimension(self) -> Option<u32> {
        match self {
            ThumbnailSize::Small => Some(400u32),
            ThumbnailSize::Large => Some(1200u32),
            ThumbnailSize::Native => None,
        }
    }

    /// Looks the size up in the fixed size-to-bound table.
    pub fn max_dimension(self) -> (r: Option<u32>)
        ensures
            r == self.spec_max_dimension(),
    {
        match self {
            ThumbnailSize::Small => Some(400),
            ThumbnailSize::Large => Some(1200),
            ThumbnailSize::Native => None,
        }
    }
}

/// The internal parameters a thumbnail request decodes to, seeded from the
/// fixed default: a present field fully overwrites the default's value, an
/// absent field keeps it.
pub open spec fn spec_decode_thumbnail_options(o: ThumbnailOptions) -> thumbnail::Options {
    thumbnail::Options {
        max_dimension: match o.size {
            Some(s) => s.spec_max_dimension(),
            None => thumbnail::spec_default_options().max_dimension,
        },
        pad_to_square: match o.pad {
            Some(p) => p,
            None => thumbnail::spec_default_options().pad_to_square,
        },
    }
}

impl From<ThumbnailOptions> for thumbnail::Options {
    fn from(dto: ThumbnailOptions) -> (r: Self) {
        let mut options = thumbnail::Options::default();
        if let Some(s) = dto.size {
            options.max_dimension = s.max_dimension();
        }
        if let Some(p) = dto.pad {
            options.pad_to_square = p;
        }
        options
    }
}

impl vstd::std_specs::convert::FromSpecImpl<ThumbnailOptions> for thumbnail::Options {
    open spec fn obeys_from_spec() -> bool {
        true
    }

    open spec fn from_spec(dto: ThumbnailOptions) -> Self {
        spec_decode_thumbnail_options(dto)
    }
}

/// A playlist name, used only for listing.
#[derive(Clone, Debug, PartialEq, Eq)]
pub struct ListPlaylistsEntry {
    pub name: String,
}

/// An ordered sequence of track paths; order is significant and preserved
/// verbatim into the stored playlist.
#[derive(Clone, Debug, PartialEq, Eq)]
pub struct SavePlaylistInput {
    pub tracks: Vec<String>,
}

/// Payload of a completed scrobbler link flow: a narrowly-scoped auth
/// token issued by this server, the external service token, and free-form
/// content relayed back to the caller. Token contents are opaque here.
#[derive(Clone, Debug, PartialEq, Eq)]
pub struct LastFMLink {
    pub auth_token: String,
    pub token: String,
    pub content: String,
}

/// A short-lived opaque continuation handle for the link flow.
#[derive(Clone, Debug, PartialEq, Eq)]
pub struct LastFMLinkToken {
    pub value: String,
}

/// The read-only projection of a user record.
#[derive(Clone, Debug, PartialEq, Eq)]
pub struct User {
    pub name: String,
    pub is_admin: bool,
}

/// Projects an internal user record outward: the numeric admin flag
/// collapses to a boolean, true exactly when the stored value is non-zero.
pub open spec fn spec_project_user(u: user::User) -> User {
    User { name: u.name, is_admin: u.admin != 0 }
}

impl From<user::User> for User {
    fn from(u: user::User) -> (r: Self) {
        User { name: u.name, is_admin: u.admin != 0 }
    }
}

impl vstd::std_specs::convert::FromSpecImpl<user::User> for User {
    open spec fn obeys_from_spec() -> bool {
        true
    }

    open spec fn from_spec(u: user::User) -> Self {
        spec_project_user(u)
    }
}

/// A user-creation input: name, plaintext password and admin flag. No
/// hashing or validation happens at this layer.
#[derive(Clone, Debug, PartialEq, Eq)]
pub struct NewUser {
    pub name: String,
    pub password: String,
    pub admin: bool,
}

/// The internal creation request a wire `NewUser` decodes to: a pure
/// repackaging with no derived values.
pub open spec fn spec_decode_new_user(u: NewUser) -> user::NewUser {
    user::NewUser { name: u.name, password: u.password, admin: u.admin }
}

impl From<NewUser> for user::NewUser {
    fn from(u: NewUser) -> (r: Self) {
        user::NewUser { name: u.name, password: u.password, admin: u.admin }
    }
}

impl vstd::std_specs::convert::FromSpecImpl<NewUser> for user::NewUser {
    open spec fn obeys_from_spec() -> bool {
        true
    }

    open spec fn from_spec(u: NewUser) -> Self {
        spec_decode_new_user(u)
    }
}

/// A sparse user patch: the two fields independently signal "set a new
/// password" and "set the admin flag"; both absent is a valid no-op.
#[derive(Clone, Debug, PartialEq, Eq)]
pub struct UserUpdate {
    pub new_password: Option<String>,
    pub new_is_admin: Option<bool>,
}

impl Default for UserUpdate {
    /// An empty patch: every field absent, so it requests no change.
    fn default() -> (r: Self)
        ensures
            r.new_password is None,
            r.new_is_admin is None,
    {
        UserUpdate { new_password: None, new_is_admin: None }
    }
}

/// Dynamic-DNS settings on the wire; every field maps 1:1 with the
/// internal shape, with nothing derived or defaulted.
#[derive(Clone, Debug, PartialEq, Eq)]
pub struct DDNSConfig {
    pub host: String,
    pub username: String,
    pub password: String,
}

/// The internal value a wire DDNS configuration decodes to: a lossless
/// field-for-field copy.
pub open spec fn spec_decode_ddns(c: DDNSConfig) -> ddns::Config {
    ddns::Config { host: c.host, username: c.username, password: c.password }
}

/// The wire value an internal DDNS configuration encodes to: a lossless
/// field-for-field copy.
pub open spec fn spec_encode_ddns(c: ddns::Config) -> DDNSConfig {
    DDNSConfig { host: c.host, username: c.username, password: c.password }
}

impl From<DDNSConfig> for ddns::Config {
    fn from(c: DDNSConfig) -> (r: Self) {
        ddns::Config { host: c.host, username: c.username, password: c.password }
    }
}

impl vstd::std_specs::convert::FromSpecImpl<DDNSConfig> for ddns::Config {
    open spec fn obeys_from_spec() -> bool {
        true
    }

    open spec fn from_spec(c: DDNSConfig) -> Self {
        spec_decode_ddns(c)
    }
}

impl From<ddns::Config> for DDNSConfig {
    fn from(c: ddns::Config) -> (r: Self) {
        DDNSConfig { host: c.host, username: c.username, password: c.password }
    }
}

impl vstd::std_specs::convert::FromSpecImpl<ddns::Config> for DDNSConfig {
    open spec fn obeys_from_spec() -> bool {
        true
    }

    open spec fn from_spec(c: ddns::Config) -> Self {
        spec_encode_ddns(c)
    }
}

/// Both conversions between the wire and internal DDNS shapes are lossless:
/// either round trip returns the starting value.
pub proof fn ddns_round_trip(c: DDNSConfig, i: ddns::Config)
    ensures
        spec_encode_ddns(spec_decode_ddns(c)) == c,
        spec_decode_ddns(spec_encode_ddns(i)) == i,
{
}

/// A mount point on the wire: source path plus logical name; every field
/// maps 1:1 with the internal shape.
#[derive(Clone, Debug, PartialEq, Eq)]
pub struct MountDir {
    pub source: String,
    pub name: String,
}

/// The internal value a wire mount point decodes to: a lossless
/// field-for-field copy.
pub open spec fn spec_decode_mount_dir(m: MountDir) -> vfs::MountDir {
    vfs::MountDir { name: m.name, source: m.source }
}

/// The wire value an internal mount point encodes to: a lossless
/// field-for-field copy.
pub open spec fn spec_encode_mount_dir(m: vfs::MountDir) -> MountDir {
    MountDir { source: m.source, name: m.name }
}

impl From<MountDir> for vfs::MountDir {
    fn from(m: MountDir) -> (r: Self) {
        vfs::MountDir { name: m.name, source: m.source }
    }
}

impl vstd::std_specs::convert::FromSpecImpl<MountDir> for vfs::MountDir {
    open spec fn obeys_from_spec() -> bool {
        true
    }

    open spec fn from_spec(m: MountDir) -> Self {
        spec_decode_mount_dir(m)
    }
}

impl From<vfs::MountDir> for MountDir {
    fn from(m: vfs::MountDir) -> (r: Self) {
        MountDir { source: m.source, name: m.name }
    }
}

impl vstd::std_specs::convert::FromSpecImpl<vfs::MountDir> for MountDir {
    open spec fn obeys_from_spec() -> bool {
        true
    }

    open spec fn from_spec(m: vfs::MountDir) -> Self {
        spec_encode_mount_dir(m)
    }
}

/// Both conversions between the wire and internal mount-point shapes are
/// lossless: either round trip returns the starting value.
pub proof fn mount_dir_round_trip(m: MountDir, i: vfs::MountDir)
    ensures
        spec_encode_mount_dir(spec_decode_mount_dir(m)) == m,
        spec_decode_mount_dir(spec_encode_mount_dir(i)) == i,
{
}

/// A sparse settings patch: both fields independently optional, absence
/// meaning "leave unchanged".
#[derive(Clone, Debug, PartialEq, Eq)]
pub struct NewSettings {
    pub album_art_pattern: Option<String>,
    pub reindex_every_n_seconds: Option<i32>,
}

/// The internal patch a wire settings patch decodes to: both fields are
/// copied as they are, and absence stays absence.
pub open spec fn spec_decode_new_settings(s: NewSettings) -> settings::NewSettings {
    settings::NewSettings {
        album_art_pattern: s.album_art_pattern,
        reindex_every_n_seconds: s.reindex_every_n_seconds,
    }
}

impl From<NewSettings> for settings::NewSettings {
    fn from(s: NewSettings) -> (r: Self) {
        settings::NewSettings {
            album_art_pattern: s.album_art_pattern,
            reindex_every_n_seconds: s.reindex_every_n_seconds,
        }
    }
}

impl vstd::std_specs::convert::FromSpecImpl<NewSettings> for settings::NewSettings {
    open spec fn obeys_from_spec() -> bool {
        true
    }

    open spec fn from_spec(s: NewSettings) -> Self {
        spec_decode_new_settings(s)
    }
}

impl Default for NewSettings {
    /// An empty patch: every field absent, so it requests no change.
    fn default() -> (r: Self)
        ensures
            r.album_art_pattern is None,
            r.reindex_every_n_seconds is None,
    {
        NewSettings { album_art_pattern: None, reindex_every_n_seconds: None }
    }
}

/// The full settings read-back: both fields always present. The wire field
/// names intentionally diverge from the internal ones, so the projection
/// is a rename, not an identity copy.
#[derive(Clone, Debug, PartialEq, Eq)]
pub struct Settings {
    pub album_art_pattern: String,
    pub reindex_every_n_seconds: i32,
}

/// Projects the full internal settings outward, renaming
/// `index_album_art_pattern` to `album_art_pattern` and
/// `index_sleep_duration_seconds` to `reindex_every_n_seconds`.
pub open spec fn spec_encode_settings(s: settings::Settings) -> Settings {
    Settings {
        album_art_pattern: s.index_album_art_pattern,
        reindex_every_n_seconds: s.index_sleep_duration_seconds,
    }
}

impl From<settings::Settings> for Settings {
    fn from(s: settings::Settings) -> (r: Self) {
        Settings {
            album_art_pattern: s.index_album_art_pattern,
            reindex_every_n_seconds: s.index_sleep_duration_seconds,
        }
    }
}

impl vstd::std_specs::convert::FromSpecImpl<settings::Settings> for Settings {
    open spec fn obeys_from_spec() -> bool {
        true
    }

    open spec fn from_spec(s: settings::Settings) -> Self {
        spec_encode_settings(s)
    }
}

/// The top-level aggregate patch: four independently optional
/// sub-sections. An absent sub-section means "do not touch that
/// subsystem"; a present `users` or `mount_dirs` list replaces the stored
/// collection wholesale.
#[derive(Clone, Debug, PartialEq, Eq)]
pub struct Config {
    pub settings: Option<NewSettings>,
    pub users: Option<Vec<NewUser>>,
    pub mount_dirs: Option<Vec<MountDir>>,
    pub ydns: Option<DDNSConfig>,
}

impl Default for Config {
    /// An empty patch: every sub-section absent, so applying it touches no
    /// subsystem.
    fn default() -> (r: Self)
        ensures
            r.settings is None,
            r.users is None,
            r.mount_dirs is None,
            r.ydns is None,
    {
        Config { settings: None, users: None, mount_dirs: None, ydns: None }
    }
}

/// Converts every entry of a wire user list, preserving order, with no
/// deduplication or validation.
fn decode_user_list(users: Vec<NewUser>) -> (r: Vec<user::NewUser>)
    ensures
        r@.len() == users@.len(),
        forall|i: int| 0 <= i < users@.len() ==> r@[i] == spec_decode_new_user(users@[i]),
{
    let ghost all = users@;
    let mut rest = users;
    let mut r: Vec<user::NewUser> = Vec::new();
    while rest.len() > 0
        invariant
            r@.len() + rest@.len() == all.len(),
            rest@ == all.subrange(r@.len() as int, all.len() as int),
            forall|i: int| 0 <= i < r@.len() ==> r@[i] == spec_decode_new_user(all[i]),
        decreases rest@.len(),
    {
        let ghost k = r@.len() as int;
        let u = rest.remove(0);
        proof {
            assert(rest@ =~= all.subrange(k + 1, all.len() as int));
        }
        r.push(user::NewUser::from(u));
    }
    r
}

/// Converts every entry of a wire mount-point list, preserving order, with
/// no deduplication or validation.
fn decode_mount_dir_list(dirs: Vec<MountDir>) -> (r: Vec<vfs::MountDir>)
    ensures
        r@.len() == dirs@.len(),
        forall|i: int| 0 <= i < dirs@.len() ==> r@[i] == spec_decode_mount_dir(dirs@[i]),
{
    let ghost all = dirs@;
    let mut rest = dirs;
    let mut r: Vec<vfs::MountDir> = Vec::new();
    while rest.len() > 0
        invariant
            r@.len() + rest@.len() == all.len(),
            rest@ == all.subrange(r@.len() as int, all.len() as int),
            forall|i: int| 0 <= i < r@.len() ==> r@[i] == spec_decode_mount_dir(all[i]),
        decreases rest@.len(),
    {
        let ghost k = r@.len() as int;
        let m = rest.remove(0);
        proof {
            assert(rest@ =~= all.subrange(k + 1, all.len() as int));
        }
        r.push(vfs::MountDir::from(m));
    }
    r
}

impl Config {
    /// Decodes the aggregate patch into the internal configuration
    /// instruction. Each absent sub-section stays "no instruction"; each
    /// present one is converted in full — nested shapes recursively, lists
    /// element-wise in order. Total: no input can make it fail.
    pub fn decode(self) -> (r: config::Config)
        ensures
            r.settings is Some <==> self.settings is Some,
            self.settings matches Some(s) ==> r.settings == Some(spec_decode_new_settings(s)),
            r.ydns is Some <==> self.ydns is Some,
            self.ydns matches Some(d) ==> r.ydns == Some(spec_decode_ddns(d)),
            r.users is Some <==> self.users is Some,
            self.users matches Some(v) ==> {
                &&& r.users->Some_0@.len() == v@.len()
                &&& forall|i: int|
                    0 <= i < v@.len() ==> r.users->Some_0@[i] == spec_decode_new_user(v@[i])
            },
            r.mount_dirs is Some <==> self.mount_dirs is Some,
            self.mount_dirs matches Some(v) ==> {
                &&& r.mount_dirs->Some_0@.len() == v@.len()
                &&& forall|i: int|
                    0 <= i < v@.len() ==> r.mount_dirs->Some_0@[i] == spec_decode_mount_dir(
                        v@[i],
                    )
            },
    {
        let settings = match self.settings {
            Some(s) => Some(settings::NewSettings::from(s)),
            None => None,
        };
        let users = match self.users {
            Some(v) => Some(decode_user_list(v)),
            None => None,
        };
        let mount_dirs = match self.mount_dirs {
            Some(v) => Some(decode_mount_dir_list(v)),
            None => None,
        };
        let ydns = match self.ydns {
            Some(d) => Some(ddns::Config::from(d)),
            None => None,
        };
        config::Config { settings, users, mount_dirs, ydns }
    }
}

/// A single indexed filesystem entry: always exactly one of the two
/// variants, never both and never neither.
#[derive(Clone, Debug, PartialEq, Eq)]
pub enum CollectionFile {
    Song(Song),
    Directory(Directory),
}

/// The two `CollectionFile` variants are mutually exclusive and
/// exhaustive: every value is a song exactly when it is not a directory.
pub proof fn collection_file_exclusive(f: CollectionFile)
    ensures
        f is Song <==> !(f is Directory),
{
}

/// An indexed media item assembled for the wire: the index record's own
/// fields plus pre-resolved artist display-name lists. Name resolution,
/// ordering and deduplication are a collaborator's responsibility; the
/// lists are placed here unmodified.
#[derive(Clone, Debug, PartialEq, Eq)]
pub struct Song {
    pub path: String,
    pub parent: String,
    pub track_number: Option<i32>,
    pub disc_number: Option<i32>,
    pub title: Option<String>,
    pub artists: Vec<String>,
    pub album_artists: Vec<String>,
    pub year: Option<i32>,
    pub album: Option<String>,
    pub artwork: Option<String>,
    pub duration: Option<i32>,
    pub lyricist: Option<String>,
    pub composer: Option<String>,
    pub genre: Option<String>,
    pub label: Option<String>,
}

impl Song {
    /// Assembles the wire shape from an internal index record and the
    /// already-resolved artist and album-artist name lists: every record
    /// field is carried over unchanged, and both lists are kept verbatim.
    pub fn new(song: index::Song, artists: Vec<String>, album_artists: Vec<String>) -> (r: Self)
        ensures
            r.path == song.path,
            r.parent == song.parent,
            r.track_number == song.track_number,
            r.disc_number == song.disc_number,
            r.title == song.title,
            r.artists == artists,
            r.album_artists == album_artists,
            r.year == song.year,
            r.album == song.album,
            r.artwork == song.artwork,
            r.duration == song.duration,
            r.lyricist == song.lyricist,
            r.composer == song.composer,
            r.genre == song.genre,
            r.label == song.label,
    {
        Song {
            path: song.path,
            parent: song.parent,
            track_number: song.track_number,
            disc_number: song.disc_number,
            title: song.title,
            artists,
            album_artists,
            year: song.year,
            album: song.album,
            artwork: song.artwork,
            duration: song.duration,
            lyricist: song.lyricist,
            composer: song.composer,
            genre: song.genre,
            label: song.label,
        }
    }
}

/// An indexed folder assembled for the wire, with its pre-resolved artist
/// name list. The date added carries epoch-second semantics.
#[derive(Clone, Debug, PartialEq, Eq)]
pub struct Directory {
    pub path: String,
    pub artists: Vec<String>,
    pub year: Option<i32>,
    pub album: Option<String>,
    pub artwork: Option<String>,
    pub date_added: i32,
}

impl Directory {
    /// Assembles the wire shape from an internal index record and the
    /// already-resolved artist name list: every record field is carried
    /// over unchanged, and the list is kept verbatim.
    pub fn new(dir: index::Directory, artists: Vec<String>) -> (r: Self)
        ensures
            r.path == dir.path,
            r.artists == artists,
            r.year == dir.year,
            r.album == dir.album,
            r.artwork == dir.artwork,
            r.date_added == dir.date_added,
    {
        Directory {
            path: dir.path,
            artists,
            year: dir.year,
            album: dir.album,
            artwork: dir.artwork,
            date_added: dir.date_added,
        }
    }
}

/// The user projection always yields an exact boolean admin flag: true
/// precisely when the stored numeric value is non-zero, whatever its
/// magnitude.
pub proof fn admin_flag_round_trip(u: user::User)
    ensures
        spec_project_user(u).is_admin == (u.admin != 0),
{
}

/// A request for the `Native` size always decodes to "no maximum
/// dimension", whatever the padding field holds — never to zero or any
/// other sentinel bound.
pub proof fn native_size_unbounded(o: ThumbnailOptions)
    requires
        o.size == Some(ThumbnailSize::Native),
    ensures
        spec_decode_thumbnail_options(o).max_dimension is None,
{
}

} // verus!
