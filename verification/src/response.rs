use vstd::prelude::*;

verus! {

/// A paged listing as the API returns it.
pub struct PagingCollection<T> {
    pub collection: Vec<T>,
}

/// One suggested search query.
pub struct SearchResult {
    pub output: Option<String>,
    pub query: Option<String>,
}

/// Publisher metadata of a track.
pub struct PublisherMetadata {
    pub id: Option<u64>,
    pub urn: Option<String>,
    pub contains_music: Option<bool>,
}

/// The media block of a track: its transcodings.
pub struct Media {
    pub transcodings: Option<Vec<Transcoding>>,
}

/// One server-side encoded variant of a track, with its own signed-URL
/// resolution endpoint.
pub struct Transcoding {
    pub url: Option<String>,
    pub preset: Option<String>,
    pub duration: Option<u64>,
    pub snipped: Option<bool>,
    pub format: Option<TranscodingFormat>,
    pub quality: Option<String>,
    pub is_legacy_transcoding: Option<bool>,
}

/// The format of a transcoding: its streaming protocol and MIME type.
pub struct TranscodingFormat {
    pub protocol: Option<StreamType>,
    pub mime_type: Option<String>,
}

/// The streaming protocol of a transcoding.
#[derive(Clone, Copy, PartialEq, Eq, Structural, Debug)]
pub enum StreamType {
    Hls,
    Progressive,
    Other,
}

/// The resolved, playable stream URL, as the resolution endpoint returns it.
pub struct Stream {
    pub url: Option<String>,
}

/// A full user record.
pub struct User {
    pub avatar_url: Option<String>,
    pub city: Option<String>,
    pub comments_count: Option<u32>,
    pub country_code: Option<String>,
    pub created_at: Option<String>,
    pub creator_subscriptions: Option<Vec<CreatorSubscriptionWrapper>>,
    pub creator_subscription: Option<CreatorSubscriptionWrapper>,
    pub description: Option<String>,
    pub followers_count: Option<u32>,
    pub followings_count: Option<u32>,
    pub first_name: Option<String>,
    pub full_name: Option<String>,
    pub groups_count: Option<u32>,
    pub id: Option<u64>,
    pub kind: Option<String>,
    pub last_modified: Option<String>,
    pub last_name: Option<String>,
    pub likes_count: Option<u32>,
    pub playlist_likes_count: Option<u32>,
    pub permalink: Option<String>,
    pub permalink_url: Option<String>,
    pub playlist_count: Option<u32>,
    pub reposts_count: Option<u32>,
    pub track_count: Option<u32>,
    pub uri: Option<String>,
    pub urn: Option<String>,
    pub username: Option<String>,
    pub verified: Option<bool>,
    pub visuals: Option<Visuals>,
    pub badges: Option<Badges>,
    pub station_urn: Option<String>,
    pub station_permalink: Option<String>,
    pub date_of_birth: Option<DateOfBirth>,
}

/// A creator subscription entry of a user.
pub struct CreatorSubscriptionWrapper {
    pub product: Product,
}

/// The product of a creator subscription.
pub struct Product {
    pub id: String,
}

/// The visuals block of a user profile.
pub struct Visuals {
    pub urn: Option<String>,
    pub enabled: Option<bool>,
    pub visuals: Option<Vec<VisualEntry>>,
}

/// One visual of a user profile.
pub struct VisualEntry {
    pub urn: Option<String>,
    pub entry_time: Option<u32>,
    pub visual_url: Option<String>,
}

/// The badges of a user.
pub struct Badges {
    pub pro: Option<bool>,
    pub creator_mid_tier: Option<bool>,
    pub pro_unlimited: Option<bool>,
    pub verified: Option<bool>,
}

/// A user's date of birth.
pub struct DateOfBirth {
    pub month: Option<u8>,
    pub year: Option<u16>,
    pub day: Option<u8>,
}

/// The condensed user record embedded in a track.
pub struct UserSummary {
    pub id: Option<u64>,
    pub username: Option<String>,
    pub permalink_url: Option<String>,
    pub avatar_url: Option<String>,
}

/// One result of the mixed search endpoint.
pub enum SearchAllResult {
    Track(Track),
    User(User),
    Playlist(crate::types::Playlist),
}

/// One repost in a user's stream.
pub struct Repost {
    pub created_at: Option<String>,
    pub repost_type: Option<String>,
    pub user: Option<User>,
    pub uuid: Option<String>,
    pub caption: Option<String>,
    pub track: Option<Track>,
}

/// A full track record.
pub struct Track {
    pub access: Option<String>,
    pub artwork_url: Option<String>,
    pub comment_count: Option<u64>,
    pub created_at: Option<String>,
    pub description: Option<String>,
    pub download_url: Option<String>,
    pub downloadable: Option<bool>,
    pub duration: Option<u64>,
    pub embeddable_by: Option<String>,
    pub favoritings_count: Option<u64>,
    pub genre: Option<String>,
    pub id: Option<u64>,
    pub isrc: Option<String>,
    pub kind: Option<String>,
    pub label_name: Option<String>,
    pub license: Option<String>,
    pub media: Option<Media>,
    pub permalink_url: Option<String>,
    pub playback_count: Option<u64>,
    pub publisher_metadata: Option<PublisherMetadata>,
    pub purchase_title: Option<String>,
    pub purchase_url: Option<String>,
    pub release: Option<String>,
    pub release_day: Option<u32>,
    pub release_month: Option<u32>,
    pub release_year: Option<u32>,
    pub reposts_count: Option<u64>,
    pub sharing: Option<String>,
    pub stream_url: Option<String>,
    pub streamable: Option<bool>,
    pub tag_list: Option<String>,
    pub title: Option<String>,
    pub urn: Option<String>,
    pub user: Option<UserSummary>,
    pub user_favorite: Option<bool>,
    pub user_playback_count: Option<u64>,
    pub waveform_url: Option<String>,
}

impl Default for Track {
    /// A track with every field absent.
    fn default() -> (t: Track)
        ensures
            t == (Track {
                access: None,
                artwork_url: None,
                comment_count: None,
                created_at: None,
                description: None,
                download_url: None,
                downloadable: None,
                duration: None,
                embeddable_by: None,
                favoritings_count: None,
                genre: None,
                id: None,
                isrc: None,
                kind: None,
                label_name: None,
                license: None,
                media: None,
                permalink_url: None,
                playback_count: None,
                publisher_metadata: None,
                purchase_title: None,
                purchase_url: None,
                release: None,
                release_day: None,
                release_month: None,
                release_year: None,
                reposts_count: None,
                sharing: None,
                stream_url: None,
                streamable: None,
                tag_list: None,
                title: None,
                urn: None,
                user: None,
                user_favorite: None,
                user_playback_count: None,
                waveform_url: None,
            }),
    {
        Track {
            access: None,
            artwork_url: None,
            comment_count: None,
            created_at: None,
            description: None,
            download_url: None,
            downloadable: None,
            duration: None,
            embeddable_by: None,
            favoritings_count: None,
            genre: None,
            id: None,
            isrc: None,
            kind: None,
            label_name: None,
            license: None,
            media: None,
            permalink_url: None,
            playback_count: None,
            publisher_metadata: None,
            purchase_title: None,
            purchase_url: None,
            release: None,
            release_day: None,
            release_month: None,
            release_year: None,
            reposts_count: None,
            sharing: None,
            stream_url: None,
            streamable: None,
            tag_list: None,
            title: None,
            urn: None,
            user: None,
            user_favorite: None,
            user_playback_count: None,
            waveform_url: None,
        }
    }
}

impl Default for Transcoding {
    /// A transcoding with every field absent.
    fn default() -> (t: Transcoding)
        ensures
            t == (Transcoding {
                url: None,
                preset: None,
                duration: None,
                snipped: None,
                format: None,
                quality: None,
                is_legacy_transcoding: None,
            }),
    {
        Transcoding {
            url: None,
            preset: None,
            duration: None,
            snipped: None,
            format: None,
            quality: None,
            is_legacy_transcoding: None,
        }
    }
}

fn clone_opt_string(o: &Option<String>) -> (r: Option<String>)
    ensures
        r == *o,
{
    match o {
        Some(s) => Some(s.clone()),
        None => None,
    }
}

impl TranscodingFormat {
    /// An exact copy of this format.
    pub fn duplicate(&self) -> (f: TranscodingFormat)
        ensures
            f == *self,
    {
        TranscodingFormat {
            protocol: self.protocol,
            mime_type: clone_opt_string(&self.mime_type),
        }
    }
}

impl Transcoding {
    /// An exact copy of this transcoding.
    pub fn duplicate(&self) -> (t: Transcoding)
        ensures
            t == *self,
    {
        Transcoding {
            url: clone_opt_string(&self.url),
            preset: clone_opt_string(&self.preset),
            duration: self.duration,
            snipped: self.snipped,
            format: match &self.format {
                Some(f) => Some(f.duplicate()),
                None => None,
            },
            quality: clone_opt_string(&self.quality),
            is_legacy_transcoding: self.is_legacy_transcoding,
        }
    }
}

} // verus!
