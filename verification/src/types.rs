use vstd::prelude::*;

verus! {

// ---------------------------------------------------------------------------
// Request and response payload shapes of the public API endpoints. The core
// treats these as opaque payloads; they carry no behavior of their own.
// ---------------------------------------------------------------------------

/// An OAuth token request.
pub struct OAuthToken {
    pub grant_type: GrantType,
    pub client_id: String,
    pub client_secret: String,
    pub code: Option<String>,
    pub redirect_uri: Option<String>,
    pub refresh_token: Option<String>,
}

/// The grant type of an OAuth token request.
pub enum GrantType {
    AuthorizationCode,
    RefreshToken,
    ClientCredentials,
}

/// A track metadata update request.
pub struct TrackMetadataRequest {
    pub track: TrackMetadata,
}

/// The metadata of a track, as sent on update.
pub struct TrackMetadata {
    pub title: Option<String>,
    pub permalink: Option<String>,
    pub sharing: Sharing,
    pub embeddable_by: EmbeddableBy,
    pub purchase_url: Option<String>,
    pub description: Option<String>,
    pub genre: Option<String>,
    pub tag_list: Option<String>,
    pub label_name: Option<String>,
    pub release: Option<String>,
    pub release_date: Option<String>,
    pub streamable: bool,
    pub downloadable: bool,
    pub license: Option<License>,
    pub commentable: bool,
    pub isrc: Option<String>,
}

/// Visibility of a track or playlist.
pub enum Sharing {
    Public,
    Private,
}

/// Who may embed a track.
pub enum EmbeddableBy {
    All,
    Me,
    Nobody,
}

/// The license of a track.
pub enum License {
    NoRightsReserved,
    AllRightsReserved,
    CcBy,
    CcByNc,
    CcByNd,
    CcBySa,
    CcByNcNd,
    CcByNcSa,
}

/// A playlist create or update request.
pub struct CreateUpdatePlaylistRequest {
    pub playlist: PlaylistRequest,
}

/// The body of a playlist create or update request.
pub struct PlaylistRequest {
    pub title: Option<String>,
    pub description: Option<String>,
    pub sharing: Sharing,
    pub tracks: Option<Vec<PlaylistTrack>>,
    pub artwork_data: Option<String>,
    pub ean: Option<String>,
    pub genre: Option<String>,
    pub label_name: Option<String>,
    pub license: Option<String>,
    pub permalink: Option<String>,
    pub permalink_url: Option<String>,
    pub purchase_title: Option<String>,
    pub purchase_url: Option<String>,
    pub release: Option<String>,
    pub release_date: Option<String>,
    pub set_type: Option<SetType>,
    pub tag_list: Option<String>,
}

/// Whether a set is an album or a playlist.
pub enum SetType {
    Album,
    Playlist,
}

/// A track reference inside a playlist request.
pub struct PlaylistTrack {
    pub urn: String,
}

/// A playlist create or update request with form-style keys.
pub struct CreateUpdatePlaylistFormRequest {
    pub title: Option<String>,
    pub sharing: Option<Sharing>,
    pub description: Option<String>,
    pub tracks: Option<String>,
    pub artwork_data: Option<String>,
    pub ean: Option<String>,
    pub genre: Option<String>,
    pub label_name: Option<String>,
    pub license: Option<String>,
    pub permalink: Option<String>,
    pub permalink_url: Option<String>,
    pub purchase_title: Option<String>,
    pub purchase_url: Option<String>,
    pub release: Option<String>,
    pub release_date: Option<String>,
    pub set_type: Option<SetType>,
    pub tag_list: Option<String>,
}

/// A track upload request with form-style keys.
pub struct TrackDataRequest {
    pub title: Option<String>,
    pub asset_data: Option<String>,
    pub permalink: Option<String>,
    pub sharing: Option<Sharing>,
    pub embeddable_by: Option<EmbeddableBy>,
    pub purchase_url: Option<String>,
    pub description: Option<String>,
    pub genre: Option<String>,
    pub tag_list: Option<String>,
    pub label_name: Option<String>,
    pub release: Option<String>,
    pub release_date: Option<String>,
    pub streamable: Option<bool>,
    pub downloadable: Option<bool>,
    pub license: Option<License>,
    pub commentable: Option<bool>,
    pub isrc: Option<String>,
    pub artwork_data: Option<String>,
}

/// A redirect response.
pub struct Found {
    pub status: String,
    pub location: String,
}

/// An error payload of the public API.
pub struct Error {
    pub code: Option<i32>,
    pub message: Option<String>,
    pub link: Option<String>,
    pub error: Option<String>,
    pub errors: Option<Vec<String>>,
    pub status: Option<String>,
}

/// A rate-limiting error payload.
pub struct TooManyRequests {
    pub error: Error,
    pub spam_warning_urn: Option<String>,
}

/// A user record of the public API.
pub struct User {
    pub avatar_url: Option<String>,
    pub city: Option<String>,
    pub country: Option<String>,
    pub description: Option<String>,
    pub discogs_name: Option<String>,
    pub first_name: Option<String>,
    pub followers_count: Option<i32>,
    pub followings_count: Option<i32>,
    pub full_name: Option<String>,
    pub id: Option<i64>,
    pub urn: Option<String>,
    pub kind: Option<String>,
    pub created_at: Option<String>,
    pub last_modified: Option<String>,
    pub last_name: Option<String>,
    pub myspace_name: Option<String>,
    pub permalink: Option<String>,
    pub permalink_url: Option<String>,
    pub plan: Option<String>,
    pub playlist_count: Option<i32>,
    pub public_favorites_count: Option<i32>,
    pub reposts_count: Option<i32>,
    pub track_count: Option<i32>,
    pub uri: Option<String>,
    pub username: Option<String>,
    pub website: Option<String>,
    pub website_title: Option<String>,
    pub subscriptions: Option<Vec<SubscriptionItem>>,
}

/// One subscription of a user.
pub struct SubscriptionItem {
    pub product: Option<SubscriptionProduct>,
    pub recurring: Option<bool>,
}

/// The product of a subscription.
pub struct SubscriptionProduct {
    pub id: Option<String>,
    pub name: Option<String>,
}

/// The authenticated user's own record.
pub struct Me {
    pub avatar_url: Option<String>,
    pub city: Option<String>,
    pub comments_count: Option<i32>,
    pub country: Option<String>,
    pub created_at: Option<String>,
    pub description: Option<String>,
    pub discogs_name: Option<String>,
    pub first_name: Option<String>,
    pub followers_count: Option<i32>,
    pub followings_count: Option<i32>,
    pub full_name: Option<String>,
    pub id: Option<i64>,
    pub urn: Option<String>,
    pub kind: Option<String>,
    pub last_modified: Option<String>,
    pub last_name: Option<String>,
    pub likes_count: Option<i32>,
    pub locale: Option<String>,
    pub online: Option<bool>,
    pub myspace_name: Option<String>,
    pub permalink: Option<String>,
    pub permalink_url: Option<String>,
    pub plan: Option<String>,
    pub playlist_count: Option<i32>,
    pub primary_email_confirmed: Option<bool>,
    pub private_playlists_count: Option<i32>,
    pub private_tracks_count: Option<i32>,
    pub public_favorites_count: Option<i32>,
    pub quota: Option<Quota>,
    pub reposts_count: Option<i32>,
    pub subscriptions: Option<Vec<SubscriptionItem>>,
    pub track_count: Option<i32>,
    pub upload_seconds_left: Option<i32>,
    pub uri: Option<String>,
    pub username: Option<String>,
    pub website: Option<String>,
    pub website_title: Option<String>,
}

/// The upload quota of the authenticated user.
pub struct Quota {
    pub unlimited_upload_quota: Option<bool>,
    pub upload_seconds_used: Option<i32>,
    pub upload_seconds_left: Option<i32>,
}

/// A paged listing of users.
pub struct Users {
    pub collection: Vec<User>,
    pub next_href: Option<String>,
}

/// A track record of the public API.
pub struct Track {
    pub title: Option<String>,
    pub artwork_url: Option<String>,
    pub bpm: Option<i32>,
    pub comment_count: Option<i32>,
    pub commentable: Option<bool>,
    pub created_at: Option<String>,
    pub description: Option<String>,
    pub download_count: Option<i32>,
    pub downloadable: Option<String>,
    pub duration: Option<i32>,
    pub embeddable_by: Option<String>,
    pub favoritings_count: Option<i32>,
    pub genre: Option<String>,
    pub id: Option<i64>,
    pub urn: Option<String>,
    pub isrc: Option<String>,
    pub key_signature: Option<String>,
    pub kind: Option<String>,
    pub label_name: Option<String>,
    pub license: Option<String>,
    pub metadata_artist: Option<String>,
    pub permalink_url: Option<String>,
    pub playback_count: Option<i32>,
    pub purchase_title: Option<String>,
    pub purchase_url: Option<String>,
    pub release: Option<String>,
    pub release_day: Option<i32>,
    pub release_month: Option<i32>,
    pub release_year: Option<i32>,
    pub sharing: Option<String>,
    pub stream_url: Option<String>,
    pub streamable: Option<bool>,
    pub tag_list: Option<String>,
    pub uri: Option<String>,
    pub user: Option<User>,
    pub user_favorite: Option<bool>,
    pub user_playback_count: Option<i32>,
    pub waveform_url: Option<String>,
    pub available_country_codes: Option<String>,
    pub access: Option<String>,
    pub download_url: Option<String>,
    pub reposts_count: Option<i32>,
    pub secret_uri: Option<String>,
}

/// A paged listing of tracks.
pub struct Tracks {
    pub collection: Vec<Track>,
    pub next_href: Option<String>,
}

/// A playlist record of the public API.
pub struct Playlist {
    pub title: Option<String>,
    pub id: Option<i64>,
    pub urn: Option<String>,
    pub kind: Option<String>,
    pub artwork_url: Option<String>,
    pub created_at: Option<String>,
    pub description: Option<String>,
    pub downloadable: Option<bool>,
    pub duration: Option<i32>,
    pub ean: Option<String>,
    pub embeddable_by: Option<String>,
    pub genre: Option<String>,
    pub label_id: Option<i32>,
    pub label_name: Option<String>,
    pub last_modified: Option<String>,
    pub license: Option<String>,
    pub permalink: Option<String>,
    pub permalink_url: Option<String>,
    pub playlist_type: Option<String>,
    pub purchase_title: Option<String>,
    pub purchase_url: Option<String>,
    pub release: Option<String>,
    pub release_day: Option<i32>,
    pub release_month: Option<i32>,
    pub release_year: Option<i32>,
    pub sharing: Option<String>,
    pub track_count: Option<i32>,
    pub tracks: Option<Vec<Track>>,
    pub uri: Option<String>,
    pub user: Option<User>,
    pub user_id: Option<i32>,
    pub user_urn: Option<String>,
    pub likes_count: Option<i32>,
    pub label: Option<User>,
    pub tracks_uri: Option<String>,
    pub tags: Option<String>,
}

/// A paged listing of playlists.
pub struct Playlists {
    pub collection: Vec<Playlist>,
    pub next_href: Option<String>,
}

/// A paged listing of activities.
pub struct Activities {
    pub collection: Vec<ActivityItem>,
    pub next_href: Option<String>,
    pub future_href: Option<String>,
}

/// One activity of a user's stream.
pub struct ActivityItem {
    pub activity_type: String,
    pub created_at: Option<String>,
    pub origin: ActivityOrigin,
}

/// What an activity concerns.
pub enum ActivityOrigin {
    Track(Track),
    Playlist(Playlist),
}

/// A web profile link of a user.
pub struct WebProfile {
    pub created_at: Option<String>,
    pub id: Option<i64>,
    pub urn: Option<String>,
    pub kind: Option<String>,
    pub service: Option<String>,
    pub title: Option<String>,
    pub url: Option<String>,
    pub username: Option<String>,
}

/// A comment on a track.
pub struct Comment {
    pub body: String,
    pub created_at: Option<String>,
    pub id: Option<i64>,
    pub urn: String,
    pub kind: String,
    pub user_id: Option<i64>,
    pub user_urn: Option<String>,
    pub timestamp: Option<i32>,
    pub track_id: Option<i64>,
    pub track_urn: Option<String>,
    pub uri: Option<String>,
    pub user: Option<CommentUser>,
}

/// The condensed user record embedded in a comment.
pub struct CommentUser {
    pub id: Option<i64>,
    pub urn: Option<String>,
    pub kind: Option<String>,
    pub permalink: Option<String>,
    pub username: Option<String>,
    pub last_modified: Option<String>,
    pub uri: Option<String>,
    pub permalink_url: Option<String>,
    pub avatar_url: Option<String>,
    pub followers_count: Option<i32>,
    pub followings_count: Option<i32>,
    pub reposts_count: Option<i32>,
}

/// A paged listing of comments.
pub struct Comments {
    pub collection: Vec<Comment>,
    pub next_href: Option<String>,
}

/// The stream URL variants of a track.
pub struct Streams {
    pub http_mp3_128_url: Option<String>,
    pub hls_mp3_128_url: Option<String>,
    pub hls_opus_64_url: Option<String>,
    pub preview_mp3_128_url: Option<String>,
}

} // verus!
