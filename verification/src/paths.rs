use vstd::prelude::*;

use crate::identifier::{identifier_text, SoundcloudIdentifier};
use crate::numfmt::{i64_to_string, int_dec_digits};
use crate::scrape::chars_of;

verus! {

// ---------------------------------------------------------------------------
// Resource paths, as handed to the request pipeline by the per-resource
// collaborators. Each is plain text formatting over an identifier.
// ---------------------------------------------------------------------------

/// The position of the last ':' at or before position `j`, if any.
pub open spec fn last_colon(s: Seq<char>, j: int) -> Option<int>
    decreases j + 1,
{
    if j < 0 || j >= s.len() {
        None
    } else if s[j] == ':' {
        Some(j)
    } else {
        last_colon(s, j - 1)
    }
}

/// What follows the last ':' of `s`, or all of `s` when it has none.
pub open spec fn urn_tail_text(s: Seq<char>) -> Seq<char> {
    match last_colon(s, s.len() - 1) {
        Some(k) => s.subrange(k + 1, s.len() as int),
        None => s,
    }
}

/// The segment after the last ':' of a URN (the whole string when it has no
/// colon): the numeric part used by the reposts endpoint.
pub fn urn_tail(urn: &str) -> (t: String)
    ensures
        t@ == urn_tail_text(urn@),
{
    let v = chars_of(urn);
    let n = v.len();
    let mut j: usize = n;
    loop
        invariant
            j <= n,
            n == v@.len(),
            v@ == urn@,
            last_colon(urn@, n - 1) == last_colon(urn@, j - 1),
        decreases j,
    {
        if j == 0 {
            return urn.to_owned();
        }
        if v[j - 1] == ':' {
            let t = urn.substring_char(j, n).to_owned();
            return t;
        }
        j = j - 1;
    }
}

/// The path of a track resource.
pub fn track_path(id: &SoundcloudIdentifier) -> (p: String)
    ensures
        p@ == "tracks/"@ + identifier_text(*id),
{
    let mut p = String::new();
    p.append("tracks/");
    let t = id.to_text();
    p.append(t.as_str());
    p
}

/// The path of the related-tracks listing of a track.
pub fn track_related_path(id: &SoundcloudIdentifier) -> (p: String)
    ensures
        p@ == "tracks/"@ + identifier_text(*id) + "/related"@,
{
    let mut p = String::new();
    p.append("tracks/");
    let t = id.to_text();
    p.append(t.as_str());
    p.append("/related");
    proof {
        assert(p@ =~= "tracks/"@ + identifier_text(*id) + "/related"@);
    }
    p
}

/// The path of a user resource.
pub fn user_path(id: &SoundcloudIdentifier) -> (p: String)
    ensures
        p@ == "users/"@ + identifier_text(*id),
{
    let mut p = String::new();
    p.append("users/");
    let t = id.to_text();
    p.append(t.as_str());
    p
}

fn user_subresource_path(id: &SoundcloudIdentifier, suffix: &str) -> (p: String)
    ensures
        p@ == "users/"@ + identifier_text(*id) + suffix@,
{
    let mut p = String::new();
    p.append("users/");
    let t = id.to_text();
    p.append(t.as_str());
    p.append(suffix);
    proof {
        assert(p@ =~= "users/"@ + identifier_text(*id) + suffix@);
    }
    p
}

/// The path of a user's followers listing.
pub fn user_followers_path(id: &SoundcloudIdentifier) -> (p: String)
    ensures
        p@ == "users/"@ + identifier_text(*id) + "/followers"@,
{
    user_subresource_path(id, "/followers")
}

/// The path of a user's followings listing.
pub fn user_followings_path(id: &SoundcloudIdentifier) -> (p: String)
    ensures
        p@ == "users/"@ + identifier_text(*id) + "/followings"@,
{
    user_subresource_path(id, "/followings")
}

/// The path of a user's playlists listing.
pub fn user_playlists_path(id: &SoundcloudIdentifier) -> (p: String)
    ensures
        p@ == "users/"@ + identifier_text(*id) + "/playlists"@,
{
    user_subresource_path(id, "/playlists")
}

/// The path of a user's tracks listing.
pub fn user_tracks_path(id: &SoundcloudIdentifier) -> (p: String)
    ensures
        p@ == "users/"@ + identifier_text(*id) + "/tracks"@,
{
    user_subresource_path(id, "/tracks")
}

/// The identifier text used by the reposts endpoint: the decimal digits of a
/// numeric ID, or the segment after the last ':' of a URN.
pub open spec fn reposts_id_text(id: SoundcloudIdentifier) -> Seq<char> {
    match id {
        SoundcloudIdentifier::Id(n) => int_dec_digits(n as int),
        SoundcloudIdentifier::Urn(urn) => urn_tail_text(urn@),
    }
}

/// The path of a user's reposts stream; a URN identifier contributes only its
/// segment after the last ':'.
pub fn user_reposts_path(id: &SoundcloudIdentifier) -> (p: String)
    ensures
        p@ == "stream/users/"@ + reposts_id_text(*id) + "/reposts"@,
{
    let mut p = String::new();
    p.append("stream/users/");
    let t = match id {
        SoundcloudIdentifier::Id(n) => i64_to_string(*n),
        SoundcloudIdentifier::Urn(urn) => urn_tail(urn.as_str()),
    };
    p.append(t.as_str());
    p.append("/reposts");
    proof {
        assert(p@ =~= "stream/users/"@ + reposts_id_text(*id) + "/reposts"@);
    }
    p
}

/// The path of a playlist resource.
pub fn playlist_path(id: i64) -> (p: String)
    ensures
        p@ == "playlists/"@ + int_dec_digits(id as int),
{
    let mut p = String::new();
    p.append("playlists/");
    let t = i64_to_string(id);
    p.append(t.as_str());
    p
}

/// The path of a playlist's reposters listing.
pub fn playlist_reposters_path(id: &str) -> (p: String)
    ensures
        p@ == "playlists/"@ + id@ + "/reposters"@,
{
    let mut p = String::new();
    p.append("playlists/");
    p.append(id);
    p.append("/reposters");
    proof {
        assert(p@ =~= "playlists/"@ + id@ + "/reposters"@);
    }
    p
}

} // verus!
