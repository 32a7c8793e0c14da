use vstd::prelude::*;

use crate::numfmt::{dec_digits, i64_to_string, int_dec_digits, u64_to_string};

verus! {

// ---------------------------------------------------------------------------
// Typed query parameters of the per-resource endpoints, and their
// serialization as URL query pairs: fields appear in declaration order,
// absent fields are skipped, numbers are rendered in decimal, booleans as
// "true"/"false".
// ---------------------------------------------------------------------------

/// The key-value view of serialized query pairs.
pub open spec fn pairs_view(ps: Seq<(String, String)>) -> Seq<(Seq<char>, Seq<char>)> {
    Seq::new(ps.len(), |i: int| (ps[i].0@, ps[i].1@))
}

/// What an optional text field contributes to the query pairs.
pub open spec fn text_pair(key: Seq<char>, v: Option<String>) -> Seq<(Seq<char>, Seq<char>)> {
    match v {
        Some(s) => seq![(key, s@)],
        None => Seq::empty(),
    }
}

/// What an optional unsigned field contributes to the query pairs.
pub open spec fn u32_pair(key: Seq<char>, v: Option<u32>) -> Seq<(Seq<char>, Seq<char>)> {
    match v {
        Some(n) => seq![(key, dec_digits(n as nat))],
        None => Seq::empty(),
    }
}

/// What an optional signed field contributes to the query pairs.
pub open spec fn i32_pair(key: Seq<char>, v: Option<i32>) -> Seq<(Seq<char>, Seq<char>)> {
    match v {
        Some(n) => seq![(key, int_dec_digits(n as int))],
        None => Seq::empty(),
    }
}

/// What an optional boolean field contributes to the query pairs.
pub open spec fn bool_pair(key: Seq<char>, v: Option<bool>) -> Seq<(Seq<char>, Seq<char>)> {
    match v {
        Some(b) => seq![
            (
                key,
                if b {
                    "true"@
                } else {
                    "false"@
                },
            ),
        ],
        None => Seq::empty(),
    }
}

fn push_text(ps: &mut Vec<(String, String)>, key: &str, v: &Option<String>)
    ensures
        pairs_view(final(ps)@) == pairs_view(old(ps)@) + text_pair(key@, *v),
{
    let ghost pre = ps@;
    match v {
        Some(s) => {
            ps.push((key.to_owned(), s.clone()));
            proof {
                assert(pairs_view(ps@) =~= pairs_view(pre) + text_pair(key@, *v));
            }
        },
        None => {
            proof {
                assert(pairs_view(pre) + text_pair(key@, *v) =~= pairs_view(pre));
            }
        },
    }
}

fn push_u32(ps: &mut Vec<(String, String)>, key: &str, v: &Option<u32>)
    ensures
        pairs_view(final(ps)@) == pairs_view(old(ps)@) + u32_pair(key@, *v),
{
    let ghost pre = ps@;
    match v {
        Some(n) => {
            let rendered = u64_to_string(*n as u64);
            ps.push((key.to_owned(), rendered));
            proof {
                assert(pairs_view(ps@) =~= pairs_view(pre) + u32_pair(key@, *v));
            }
        },
        None => {
            proof {
                assert(pairs_view(pre) + u32_pair(key@, *v) =~= pairs_view(pre));
            }
        },
    }
}

fn push_i32(ps: &mut Vec<(String, String)>, key: &str, v: &Option<i32>)
    ensures
        pairs_view(final(ps)@) == pairs_view(old(ps)@) + i32_pair(key@, *v),
{
    let ghost pre = ps@;
    match v {
        Some(n) => {
            let rendered = i64_to_string(*n as i64);
            ps.push((key.to_owned(), rendered));
            proof {
                assert(pairs_view(ps@) =~= pairs_view(pre) + i32_pair(key@, *v));
            }
        },
        None => {
            proof {
                assert(pairs_view(pre) + i32_pair(key@, *v) =~= pairs_view(pre));
            }
        },
    }
}

fn push_bool(ps: &mut Vec<(String, String)>, key: &str, v: &Option<bool>)
    ensures
        pairs_view(final(ps)@) == pairs_view(old(ps)@) + bool_pair(key@, *v),
{
    let ghost pre = ps@;
    match v {
        Some(b) => {
            let rendered = if *b {
                String::from_str("true")
            } else {
                String::from_str("false")
            };
            ps.push((key.to_owned(), rendered));
            proof {
                assert(pairs_view(ps@) =~= pairs_view(pre) + bool_pair(key@, *v));
            }
        },
        None => {
            proof {
                assert(pairs_view(pre) + bool_pair(key@, *v) =~= pairs_view(pre));
            }
        },
    }
}

/// Query parameters of the track search endpoint.
pub struct TracksQuery {
    pub q: Option<String>,
    pub ids: Option<String>,
    pub urns: Option<String>,
    pub genres: Option<String>,
    pub tags: Option<String>,
    pub bpm: Option<String>,
    pub duration: Option<String>,
    pub created_at: Option<String>,
    pub access: Option<String>,
    pub limit: Option<u32>,
    pub offset: Option<u32>,
    pub linked_partitioning: Option<bool>,
}

/// The query pairs of a track search, in field order.
pub open spec fn spec_tracks_query_pairs(q: TracksQuery) -> Seq<(Seq<char>, Seq<char>)> {
    text_pair("q"@, q.q) + text_pair("ids"@, q.ids) + text_pair("urns"@, q.urns) + text_pair(
        "genres"@,
        q.genres,
    ) + text_pair("tags"@, q.tags) + text_pair("bpm"@, q.bpm) + text_pair("duration"@, q.duration)
        + text_pair("created_at"@, q.created_at) + text_pair("access"@, q.access) + u32_pair(
        "limit"@,
        q.limit,
    ) + u32_pair("offset"@, q.offset) + bool_pair("linked_partitioning"@, q.linked_partitioning)
}

impl TracksQuery {
    /// The query serialized as URL pairs, in field order, absent fields
    /// skipped.
    pub fn to_query_pairs(&self) -> (ps: Vec<(String, String)>)
        ensures
            pairs_view(ps@) == spec_tracks_query_pairs(*self),
    {
        let mut ps: Vec<(String, String)> = Vec::new();
        proof {
            assert(pairs_view(ps@) =~= Seq::<(Seq<char>, Seq<char>)>::empty());
        }
        push_text(&mut ps, "q", &self.q);
        push_text(&mut ps, "ids", &self.ids);
        push_text(&mut ps, "urns", &self.urns);
        push_text(&mut ps, "genres", &self.genres);
        push_text(&mut ps, "tags", &self.tags);
        push_text(&mut ps, "bpm", &self.bpm);
        push_text(&mut ps, "duration", &self.duration);
        push_text(&mut ps, "created_at", &self.created_at);
        push_text(&mut ps, "access", &self.access);
        push_u32(&mut ps, "limit", &self.limit);
        push_u32(&mut ps, "offset", &self.offset);
        push_bool(&mut ps, "linked_partitioning", &self.linked_partitioning);
        proof {
            assert(pairs_view(ps@) =~= spec_tracks_query_pairs(*self));
        }
        ps
    }
}

impl Default for TracksQuery {
    /// A query with every parameter absent.
    fn default() -> (q: TracksQuery)
        ensures
            q == (TracksQuery {
                q: None,
                ids: None,
                urns: None,
                genres: None,
                tags: None,
                bpm: None,
                duration: None,
                created_at: None,
                access: None,
                limit: None,
                offset: None,
                linked_partitioning: None,
            }),
    {
        TracksQuery {
            q: None,
            ids: None,
            urns: None,
            genres: None,
            tags: None,
            bpm: None,
            duration: None,
            created_at: None,
            access: None,
            limit: None,
            offset: None,
            linked_partitioning: None,
        }
    }
}

/// Pagination parameters of the listing endpoints.
pub struct Paging {
    pub limit: Option<u32>,
    pub offset: Option<u32>,
    pub linked_partitioning: Option<bool>,
}

/// The query pairs of a pagination, in field order.
pub open spec fn spec_paging_pairs(p: Paging) -> Seq<(Seq<char>, Seq<char>)> {
    u32_pair("limit"@, p.limit) + u32_pair("offset"@, p.offset) + bool_pair(
        "linked_partitioning"@,
        p.linked_partitioning,
    )
}

impl Paging {
    /// The pagination serialized as URL pairs, in field order, absent fields
    /// skipped.
    pub fn to_query_pairs(&self) -> (ps: Vec<(String, String)>)
        ensures
            pairs_view(ps@) == spec_paging_pairs(*self),
    {
        let mut ps: Vec<(String, String)> = Vec::new();
        proof {
            assert(pairs_view(ps@) =~= Seq::<(Seq<char>, Seq<char>)>::empty());
        }
        push_u32(&mut ps, "limit", &self.limit);
        push_u32(&mut ps, "offset", &self.offset);
        push_bool(&mut ps, "linked_partitioning", &self.linked_partitioning);
        proof {
            assert(pairs_view(ps@) =~= spec_paging_pairs(*self));
        }
        ps
    }
}

impl Default for Paging {
    /// A pagination with every parameter absent.
    fn default() -> (p: Paging)
        ensures
            p == (Paging { limit: None, offset: None, linked_partitioning: None }),
    {
        Paging { limit: None, offset: None, linked_partitioning: None }
    }
}

/// Query parameters of the user search endpoint.
pub struct UsersQuery {
    pub q: Option<String>,
    pub ids: Option<String>,
    pub urns: Option<String>,
    pub limit: Option<i32>,
    pub offset: Option<i32>,
    pub linked_partitioning: Option<bool>,
}

/// The query pairs of a user search, in field order.
pub open spec fn spec_users_query_pairs(q: UsersQuery) -> Seq<(Seq<char>, Seq<char>)> {
    text_pair("q"@, q.q) + text_pair("ids"@, q.ids) + text_pair("urns"@, q.urns) + i32_pair(
        "limit"@,
        q.limit,
    ) + i32_pair("offset"@, q.offset) + bool_pair("linked_partitioning"@, q.linked_partitioning)
}

impl UsersQuery {
    /// The query serialized as URL pairs, in field order, absent fields
    /// skipped.
    pub fn to_query_pairs(&self) -> (ps: Vec<(String, String)>)
        ensures
            pairs_view(ps@) == spec_users_query_pairs(*self),
    {
        let mut ps: Vec<(String, String)> = Vec::new();
        proof {
            assert(pairs_view(ps@) =~= Seq::<(Seq<char>, Seq<char>)>::empty());
        }
        push_text(&mut ps, "q", &self.q);
        push_text(&mut ps, "ids", &self.ids);
        push_text(&mut ps, "urns", &self.urns);
        push_i32(&mut ps, "limit", &self.limit);
        push_i32(&mut ps, "offset", &self.offset);
        push_bool(&mut ps, "linked_partitioning", &self.linked_partitioning);
        proof {
            assert(pairs_view(ps@) =~= spec_users_query_pairs(*self));
        }
        ps
    }
}

impl Default for UsersQuery {
    /// A query with every parameter absent.
    fn default() -> (q: UsersQuery)
        ensures
            q == (UsersQuery {
                q: None,
                ids: None,
                urns: None,
                limit: None,
                offset: None,
                linked_partitioning: None,
            }),
    {
        UsersQuery { q: None, ids: None, urns: None, limit: None, offset: None, linked_partitioning: None }
    }
}

/// Query parameters of the playlist search endpoint.
pub struct PlaylistsQuery {
    pub q: Option<String>,
    pub access: Option<String>,
    pub show_tracks: Option<bool>,
    pub limit: Option<i32>,
    pub offset: Option<i32>,
    pub linked_partitioning: Option<bool>,
}

/// The query pairs of a playlist search, in field order.
pub open spec fn spec_playlists_query_pairs(q: PlaylistsQuery) -> Seq<(Seq<char>, Seq<char>)> {
    text_pair("q"@, q.q) + text_pair("access"@, q.access) + bool_pair("show_tracks"@, q.show_tracks)
        + i32_pair("limit"@, q.limit) + i32_pair("offset"@, q.offset) + bool_pair(
        "linked_partitioning"@,
        q.linked_partitioning,
    )
}

impl PlaylistsQuery {
    /// The query serialized as URL pairs, in field order, absent fields
    /// skipped.
    pub fn to_query_pairs(&self) -> (ps: Vec<(String, String)>)
        ensures
            pairs_view(ps@) == spec_playlists_query_pairs(*self),
    {
        let mut ps: Vec<(String, String)> = Vec::new();
        proof {
            assert(pairs_view(ps@) =~= Seq::<(Seq<char>, Seq<char>)>::empty());
        }
        push_text(&mut ps, "q", &self.q);
        push_text(&mut ps, "access", &self.access);
        push_bool(&mut ps, "show_tracks", &self.show_tracks);
        push_i32(&mut ps, "limit", &self.limit);
        push_i32(&mut ps, "offset", &self.offset);
        push_bool(&mut ps, "linked_partitioning", &self.linked_partitioning);
        proof {
            assert(pairs_view(ps@) =~= spec_playlists_query_pairs(*self));
        }
        ps
    }
}

impl Default for PlaylistsQuery {
    /// A query with every parameter absent.
    fn default() -> (q: PlaylistsQuery)
        ensures
            q == (PlaylistsQuery {
                q: None,
                access: None,
                show_tracks: None,
                limit: None,
                offset: None,
                linked_partitioning: None,
            }),
    {
        PlaylistsQuery {
            q: None,
            access: None,
            show_tracks: None,
            limit: None,
            offset: None,
            linked_partitioning: None,
        }
    }
}

/// Query parameters of the album search endpoint.
pub struct AlbumQuery {
    pub q: Option<String>,
    pub limit: Option<i32>,
    pub offset: Option<i32>,
    pub linked_partitioning: Option<bool>,
}

/// The query pairs of an album search, in field order.
pub open spec fn spec_album_query_pairs(q: AlbumQuery) -> Seq<(Seq<char>, Seq<char>)> {
    text_pair("q"@, q.q) + i32_pair("limit"@, q.limit) + i32_pair("offset"@, q.offset) + bool_pair(
        "linked_partitioning"@,
        q.linked_partitioning,
    )
}

impl AlbumQuery {
    /// The query serialized as URL pairs, in field order, absent fields
    /// skipped.
    pub fn to_query_pairs(&self) -> (ps: Vec<(String, String)>)
        ensures
            pairs_view(ps@) == spec_album_query_pairs(*self),
    {
        let mut ps: Vec<(String, String)> = Vec::new();
        proof {
            assert(pairs_view(ps@) =~= Seq::<(Seq<char>, Seq<char>)>::empty());
        }
        push_text(&mut ps, "q", &self.q);
        push_i32(&mut ps, "limit", &self.limit);
        push_i32(&mut ps, "offset", &self.offset);
        push_bool(&mut ps, "linked_partitioning", &self.linked_partitioning);
        proof {
            assert(pairs_view(ps@) =~= spec_album_query_pairs(*self));
        }
        ps
    }
}

impl Default for AlbumQuery {
    /// A query with every parameter absent.
    fn default() -> (q: AlbumQuery)
        ensures
            q == (AlbumQuery { q: None, limit: None, offset: None, linked_partitioning: None }),
    {
        AlbumQuery { q: None, limit: None, offset: None, linked_partitioning: None }
    }
}

/// Query parameters of the search-suggestions endpoint.
pub struct SearchResultsQuery {
    pub q: Option<String>,
    pub limit: Option<i32>,
    pub offset: Option<i32>,
    pub linked_partitioning: Option<bool>,
}

/// The query pairs of a search-suggestions query, in field order.
pub open spec fn spec_search_results_query_pairs(q: SearchResultsQuery) -> Seq<
    (Seq<char>, Seq<char>),
> {
    text_pair("q"@, q.q) + i32_pair("limit"@, q.limit) + i32_pair("offset"@, q.offset) + bool_pair(
        "linked_partitioning"@,
        q.linked_partitioning,
    )
}

impl SearchResultsQuery {
    /// The query serialized as URL pairs, in field order, absent fields
    /// skipped.
    pub fn to_query_pairs(&self) -> (ps: Vec<(String, String)>)
        ensures
            pairs_view(ps@) == spec_search_results_query_pairs(*self),
    {
        let mut ps: Vec<(String, String)> = Vec::new();
        proof {
            assert(pairs_view(ps@) =~= Seq::<(Seq<char>, Seq<char>)>::empty());
        }
        push_text(&mut ps, "q", &self.q);
        push_i32(&mut ps, "limit", &self.limit);
        push_i32(&mut ps, "offset", &self.offset);
        push_bool(&mut ps, "linked_partitioning", &self.linked_partitioning);
        proof {
            assert(pairs_view(ps@) =~= spec_search_results_query_pairs(*self));
        }
        ps
    }
}

impl Default for SearchResultsQuery {
    /// A query with every parameter absent.
    fn default() -> (q: SearchResultsQuery)
        ensures
            q == (SearchResultsQuery {
                q: None,
                limit: None,
                offset: None,
                linked_partitioning: None,
            }),
    {
        SearchResultsQuery { q: None, limit: None, offset: None, linked_partitioning: None }
    }
}

/// Query parameters of the mixed search endpoint.
pub struct SearchAllQuery {
    pub q: Option<String>,
    pub limit: Option<i32>,
    pub offset: Option<i32>,
    pub linked_partitioning: Option<bool>,
}

/// The query pairs of a mixed search, in field order.
pub open spec fn spec_search_all_query_pairs(q: SearchAllQuery) -> Seq<(Seq<char>, Seq<char>)> {
    text_pair("q"@, q.q) + i32_pair("limit"@, q.limit) + i32_pair("offset"@, q.offset) + bool_pair(
        "linked_partitioning"@,
        q.linked_partitioning,
    )
}

impl SearchAllQuery {
    /// The query serialized as URL pairs, in field order, absent fields
    /// skipped.
    pub fn to_query_pairs(&self) -> (ps: Vec<(String, String)>)
        ensures
            pairs_view(ps@) == spec_search_all_query_pairs(*self),
    {
        let mut ps: Vec<(String, String)> = Vec::new();
        proof {
            assert(pairs_view(ps@) =~= Seq::<(Seq<char>, Seq<char>)>::empty());
        }
        push_text(&mut ps, "q", &self.q);
        push_i32(&mut ps, "limit", &self.limit);
        push_i32(&mut ps, "offset", &self.offset);
        push_bool(&mut ps, "linked_partitioning", &self.linked_partitioning);
        proof {
            assert(pairs_view(ps@) =~= spec_search_all_query_pairs(*self));
        }
        ps
    }
}

impl Default for SearchAllQuery {
    /// A query with every parameter absent.
    fn default() -> (q: SearchAllQuery)
        ensures
            q == (SearchAllQuery { q: None, limit: None, offset: None, linked_partitioning: None }),
    {
        SearchAllQuery { q: None, limit: None, offset: None, linked_partitioning: None }
    }
}

} // verus!
