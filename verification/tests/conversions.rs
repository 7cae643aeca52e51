use media_dto::config;
use media_dto::ddns;
use media_dto::dto::{
    Config, DDNSConfig, MountDir, NewSettings, NewUser, Settings, ThumbnailOptions, ThumbnailSize,
    User, UserUpdate,
};
use media_dto::settings;
use media_dto::thumbnail;
use media_dto::user;
use media_dto::vfs;

#[test]
fn ddns_round_trip_from_wire() {
    let c = DDNSConfig {
        host: "ydns.example".to_owned(),
        username: "me".to_owned(),
        password: "secret".to_owned(),
    };
    let internal = ddns::Config::from(c.clone());
    assert_eq!(internal.host, "ydns.example");
    assert_eq!(internal.username, "me");
    assert_eq!(internal.password, "secret");
    let back = DDNSConfig::from(internal);
    assert_eq!(back, c);
}

#[test]
fn ddns_round_trip_from_internal() {
    let i = ddns::Config {
        host: "h".to_owned(),
        username: "u".to_owned(),
        password: "p".to_owned(),
    };
    let back = ddns::Config::from(DDNSConfig::from(i.clone()));
    assert_eq!(back, i);
}

#[test]
fn mount_dir_round_trip_from_wire() {
    let m = MountDir { source: "/music".to_owned(), name: "library".to_owned() };
    let internal = vfs::MountDir::from(m.clone());
    assert_eq!(internal.source, "/music");
    assert_eq!(internal.name, "library");
    let back = MountDir::from(internal);
    assert_eq!(back, m);
}

#[test]
fn mount_dir_round_trip_from_internal() {
    let i = vfs::MountDir { name: "n".to_owned(), source: "s".to_owned() };
    let back = vfs::MountDir::from(MountDir::from(i.clone()));
    assert_eq!(back, i);
}

#[test]
fn thumbnail_empty_request_keeps_default() {
    let opts = ThumbnailOptions { size: None, pad: None };
    let decoded = thumbnail::Options::from(opts);
    assert_eq!(decoded, thumbnail::Options::default());
    assert_eq!(decoded.max_dimension, Some(400));
    assert!(!decoded.pad_to_square);
}

#[test]
fn thumbnail_large_overlays_only_the_bound() {
    let opts = ThumbnailOptions { size: Some(ThumbnailSize::Large), pad: None };
    let decoded = thumbnail::Options::from(opts);
    assert_eq!(decoded.max_dimension, Some(1200));
    assert_eq!(decoded.pad_to_square, thumbnail::Options::default().pad_to_square);
}

#[test]
fn thumbnail_small_bound() {
    let opts = ThumbnailOptions { size: Some(ThumbnailSize::Small), pad: Some(true) };
    let decoded = thumbnail::Options::from(opts);
    assert_eq!(decoded.max_dimension, Some(400));
    assert!(decoded.pad_to_square);
}

#[test]
fn thumbnail_native_is_unbounded() {
    for pad in [None, Some(false), Some(true)] {
        let opts = ThumbnailOptions { size: Some(ThumbnailSize::Native), pad };
        let decoded = thumbnail::Options::from(opts);
        assert_eq!(decoded.max_dimension, None);
    }
}

#[test]
fn thumbnail_pad_overlays_only_the_flag() {
    let opts = ThumbnailOptions { size: None, pad: Some(true) };
    let decoded = thumbnail::Options::from(opts);
    assert_eq!(decoded.max_dimension, thumbnail::Options::default().max_dimension);
    assert!(decoded.pad_to_square);
}

#[test]
fn admin_flag_collapses_to_boolean() {
    for (stored, expected) in [(0, false), (1, true), (42, true), (-3, true)] {
        let record = user::User { name: "ada".to_owned(), admin: stored };
        let projected = User::from(record);
        assert_eq!(projected.is_admin, expected);
        assert_eq!(projected.name, "ada");
    }
}

#[test]
fn new_user_decodes_to_creation_request() {
    let input = NewUser {
        name: "alice".to_owned(),
        password: "p".to_owned(),
        admin: true,
    };
    let request = user::NewUser::from(input);
    assert_eq!(request.name, "alice");
    assert_eq!(request.password, "p");
    assert!(request.admin);
}

#[test]
fn user_update_default_requests_nothing() {
    let patch = UserUpdate::default();
    assert_eq!(patch.new_password, None);
    assert_eq!(patch.new_is_admin, None);
}

#[test]
fn settings_read_back_renames_fields() {
    let internal = settings::Settings {
        index_album_art_pattern: "x".to_owned(),
        index_sleep_duration_seconds: 7,
    };
    let wire = Settings::from(internal);
    assert_eq!(wire.album_art_pattern, "x");
    assert_eq!(wire.reindex_every_n_seconds, 7);
}

#[test]
fn settings_patch_keeps_absence() {
    let patch = NewSettings::default();
    let decoded = settings::NewSettings::from(patch);
    assert_eq!(decoded.album_art_pattern, None);
    assert_eq!(decoded.reindex_every_n_seconds, None);
}

#[test]
fn settings_patch_keeps_presence() {
    let patch = NewSettings {
        album_art_pattern: Some("Folder.png".to_owned()),
        reindex_every_n_seconds: Some(1800),
    };
    let decoded = settings::NewSettings::from(patch);
    assert_eq!(decoded.album_art_pattern, Some("Folder.png".to_owned()));
    assert_eq!(decoded.reindex_every_n_seconds, Some(1800));
}

#[test]
fn empty_config_is_a_no_op() {
    let patch = Config::default();
    let decoded = patch.decode();
    assert!(decoded.settings.is_none());
    assert!(decoded.users.is_none());
    assert!(decoded.mount_dirs.is_none());
    assert!(decoded.ydns.is_none());
}

#[test]
fn present_mount_dirs_replace_the_collection_wholesale() {
    let existing = vec![
        vfs::MountDir { name: "a".to_owned(), source: "/a".to_owned() },
        vfs::MountDir { name: "b".to_owned(), source: "/b".to_owned() },
        vfs::MountDir { name: "c".to_owned(), source: "/c".to_owned() },
    ];
    assert_eq!(existing.len(), 3);

    let patch = Config {
        settings: None,
        users: None,
        mount_dirs: Some(vec![MountDir { source: "/new".to_owned(), name: "only".to_owned() }]),
        ydns: None,
    };
    let decoded = patch.decode();

    // The store replaces its collection with a present list, rather than
    // merging the two.
    let mut stored = existing;
    if let Some(dirs) = decoded.mount_dirs {
        stored = dirs;
    }
    assert_eq!(stored.len(), 1);
    assert_eq!(stored[0].name, "only");
    assert_eq!(stored[0].source, "/new");
}

#[test]
fn config_converts_users_element_wise_in_order() {
    let patch = Config {
        settings: None,
        users: Some(vec![
            NewUser { name: "first".to_owned(), password: "1".to_owned(), admin: true },
            NewUser { name: "second".to_owned(), password: "2".to_owned(), admin: false },
        ]),
        mount_dirs: None,
        ydns: None,
    };
    let decoded = patch.decode();
    let users = decoded.users.expect("users list was present");
    assert_eq!(users.len(), 2);
    assert_eq!(users[0].name, "first");
    assert_eq!(users[0].password, "1");
    assert!(users[0].admin);
    assert_eq!(users[1].name, "second");
    assert_eq!(users[1].password, "2");
    assert!(!users[1].admin);
}

#[test]
fn config_converts_every_present_section() {
    let patch = Config {
        settings: Some(NewSettings {
            album_art_pattern: Some("cover.*".to_owned()),
            reindex_every_n_seconds: None,
        }),
        users: Some(vec![]),
        mount_dirs: Some(vec![
            MountDir { source: "/x".to_owned(), name: "x".to_owned() },
            MountDir { source: "/y".to_owned(), name: "y".to_owned() },
        ]),
        ydns: Some(DDNSConfig {
            host: "h".to_owned(),
            username: "u".to_owned(),
            password: "p".to_owned(),
        }),
    };
    let decoded: config::Config = patch.decode();

    let s = decoded.settings.expect("settings section was present");
    assert_eq!(s.album_art_pattern, Some("cover.*".to_owned()));
    assert_eq!(s.reindex_every_n_seconds, None);

    let users = decoded.users.expect("users section was present");
    assert!(users.is_empty());

    let dirs = decoded.mount_dirs.expect("mount_dirs section was present");
    assert_eq!(dirs.len(), 2);
    assert_eq!(dirs[0].name, "x");
    assert_eq!(dirs[1].source, "/y");

    let y = decoded.ydns.expect("ydns section was present");
    assert_eq!(y.host, "h");
    assert_eq!(y.username, "u");
    assert_eq!(y.password, "p");
}
