use soundcloud_rs::identifier::SoundcloudIdentifier;
use soundcloud_rs::numfmt::{i64_to_string, u64_to_string};
use soundcloud_rs::paths::{
    playlist_path, playlist_reposters_path, track_path, track_related_path, urn_tail,
    user_followers_path, user_followings_path, user_path, user_playlists_path, user_reposts_path,
    user_tracks_path,
};

#[test]
fn renders_unsigned_decimals() {
    assert_eq!(u64_to_string(0), "0".to_string());
    assert_eq!(u64_to_string(7), "7".to_string());
    assert_eq!(u64_to_string(1234567890), "1234567890".to_string());
    assert_eq!(u64_to_string(u64::MAX), "18446744073709551615".to_string());
}

#[test]
fn renders_signed_decimals() {
    assert_eq!(i64_to_string(0), "0".to_string());
    assert_eq!(i64_to_string(-1), "-1".to_string());
    assert_eq!(i64_to_string(42), "42".to_string());
    assert_eq!(i64_to_string(i64::MIN), "-9223372036854775808".to_string());
    assert_eq!(i64_to_string(i64::MAX), "9223372036854775807".to_string());
}

#[test]
fn identifier_text_forms() {
    assert_eq!(SoundcloudIdentifier::Id(17).to_text(), "17".to_string());
    assert_eq!(
        SoundcloudIdentifier::Urn("soundcloud:tracks:17".to_string()).to_text(),
        "soundcloud:tracks:17".to_string()
    );
}

#[test]
fn urn_tail_takes_segment_after_last_colon() {
    assert_eq!(urn_tail("soundcloud:users:123"), "123".to_string());
    assert_eq!(urn_tail("plain"), "plain".to_string());
    assert_eq!(urn_tail("trailing:"), "".to_string());
}

#[test]
fn track_paths() {
    let id = SoundcloudIdentifier::Id(17);
    assert_eq!(track_path(&id), "tracks/17".to_string());
    assert_eq!(track_related_path(&id), "tracks/17/related".to_string());
    let urn = SoundcloudIdentifier::Urn("soundcloud:tracks:99".to_string());
    assert_eq!(track_path(&urn), "tracks/soundcloud:tracks:99".to_string());
}

#[test]
fn user_paths() {
    let id = SoundcloudIdentifier::Id(5);
    assert_eq!(user_path(&id), "users/5".to_string());
    assert_eq!(user_followers_path(&id), "users/5/followers".to_string());
    assert_eq!(user_followings_path(&id), "users/5/followings".to_string());
    assert_eq!(user_playlists_path(&id), "users/5/playlists".to_string());
    assert_eq!(user_tracks_path(&id), "users/5/tracks".to_string());
}

#[test]
fn reposts_path_uses_urn_tail() {
    let id = SoundcloudIdentifier::Id(5);
    assert_eq!(user_reposts_path(&id), "stream/users/5/reposts".to_string());
    let urn = SoundcloudIdentifier::Urn("soundcloud:users:123".to_string());
    assert_eq!(
        user_reposts_path(&urn),
        "stream/users/123/reposts".to_string()
    );
}

#[test]
fn playlist_paths() {
    assert_eq!(playlist_path(31), "playlists/31".to_string());
    assert_eq!(
        playlist_reposters_path("31"),
        "playlists/31/reposters".to_string()
    );
}
