use vstd::prelude::*;

use crate::error::Error;
use crate::response::{Stream, StreamType, Track, Transcoding};

verus! {

/// Whether transcoding `t` serves the wanted stream type. Asking for HLS or
/// progressive selects exactly that protocol; no wanted type, or the
/// catch-all variant, selects either of the two known protocols. A
/// transcoding without a format or protocol serves nothing.
pub open spec fn spec_transcoding_matches(t: Transcoding, want: Option<StreamType>) -> bool {
    match t.format {
        Some(f) => match f.protocol {
            Some(p) => match want {
                Some(StreamType::Hls) => p == StreamType::Hls,
                Some(StreamType::Progressive) => p == StreamType::Progressive,
                _ => p == StreamType::Progressive || p == StreamType::Hls,
            },
            None => false,
        },
        None => false,
    }
}

/// The transcodings of a track, where the track carries any.
pub open spec fn spec_track_transcodings(track: Track) -> Option<Seq<Transcoding>> {
    match track.media {
        Some(m) => match m.transcodings {
            Some(ts) => Some(ts@),
            None => None,
        },
        None => None,
    }
}

/// The index of the first transcoding at or after position `i` that serves
/// `want`, if any.
pub open spec fn spec_first_match(ts: Seq<Transcoding>, want: Option<StreamType>, i: int) -> Option<
    int,
>
    decreases ts.len() - i,
{
    if i < 0 || i >= ts.len() {
        None
    } else if spec_transcoding_matches(ts[i], want) {
        Some(i)
    } else {
        spec_first_match(ts, want, i + 1)
    }
}

fn transcoding_matches(t: &Transcoding, want: Option<StreamType>) -> (b: bool)
    ensures
        b == spec_transcoding_matches(*t, want),
{
    match &t.format {
        Some(f) => match f.protocol {
            Some(p) => match want {
                Some(StreamType::Hls) => p == StreamType::Hls,
                Some(StreamType::Progressive) => p == StreamType::Progressive,
                _ => p == StreamType::Progressive || p == StreamType::Hls,
            },
            None => false,
        },
        None => false,
    }
}

/// The first transcoding of `track` that serves the wanted stream type:
/// exactly when the track carries a non-empty transcoding list with a match,
/// a copy of the first matching transcoding is returned; otherwise an error.
pub fn get_transcoding_by_stream_type(track: &Track, stream_type: Option<StreamType>) -> (r:
    Result<Transcoding, Error>)
    ensures
        match spec_track_transcodings(*track) {
            Some(ts) => match spec_first_match(ts, stream_type, 0) {
                Some(i) => r == Ok::<Transcoding, Error>(ts[i]),
                None => r is Err,
            },
            None => r is Err,
        },
{
    let media = match &track.media {
        Some(m) => m,
        None => {
            return Err(Error::new(String::from_str("Missing media")));
        },
    };
    let ts = match &media.transcodings {
        Some(ts) => ts,
        None => {
            return Err(Error::new(String::from_str("Missing transcodings")));
        },
    };
    let n = ts.len();
    let mut i: usize = 0;
    while i < n
        invariant
            i <= n,
            n == ts@.len(),
            spec_track_transcodings(*track) == Some(ts@),
            spec_first_match(ts@, stream_type, 0) == spec_first_match(ts@, stream_type, i as int),
        decreases n - i,
    {
        if transcoding_matches(&ts[i], stream_type) {
            proof {
                assert(spec_track_transcodings(*track) == Some(ts@));
                assert(spec_first_match(ts@, stream_type, i as int) == Some(i as int));
            }
            return Ok(ts[i].duplicate());
        }
        i = i + 1;
    }
    Err(Error::new(String::from_str("No available download options")))
}

/// How a planned download is carried out.
#[derive(Clone, Copy, PartialEq, Eq, Structural, Debug)]
pub enum DownloadMethod {
    /// A progressive transcoding: fetch the resolved URL directly.
    Direct,
    /// An adaptive-streaming transcoding: hand the resolved URL to the
    /// remuxing tool.
    Remux,
}

/// A fully decided track download: the transcoding's signed-URL resolution
/// endpoint, the output file path, and the download method.
pub struct DownloadPlan {
    pub transcoding_url: String,
    pub output_path: String,
    pub method: DownloadMethod,
}

/// The output file path of a track download: the chosen name with ".mp3"
/// appended, under the destination directory when one is given.
pub open spec fn spec_output_path(destination: Option<Seq<char>>, name: Seq<char>) -> Seq<char> {
    match destination {
        Some(d) => d + seq!['/'] + name + ".mp3"@,
        None => name + ".mp3"@,
    }
}

/// The name a track download uses: the explicit filename when one is given,
/// else the track title.
pub open spec fn spec_download_name(track: Track, filename: Option<Seq<char>>) -> Seq<char>
    recommends
        track.title is Some,
{
    match filename {
        Some(f) => f,
        None => track.title->Some_0@,
    }
}

/// The method that a matched transcoding calls for.
pub open spec fn spec_download_method(t: Transcoding) -> Option<DownloadMethod> {
    match t.format {
        Some(f) => match f.protocol {
            Some(StreamType::Progressive) => Some(DownloadMethod::Direct),
            Some(StreamType::Hls) => Some(DownloadMethod::Remux),
            _ => None,
        },
        None => None,
    }
}

/// Whether a download of `track` can be fully planned: the track has a
/// title, a matching transcoding exists, that transcoding carries a
/// resolution URL, and its protocol calls for a known method.
pub open spec fn spec_plan_possible(
    track: Track,
    stream_type: Option<StreamType>,
) -> bool {
    &&& track.title is Some
    &&& match spec_track_transcodings(track) {
        Some(ts) => match spec_first_match(ts, stream_type, 0) {
            Some(i) => ts[i].url is Some && spec_download_method(ts[i]) is Some,
            None => false,
        },
        None => false,
    }
}

/// Decide a track download completely: which transcoding to resolve, where
/// the file goes, and by which method it is fetched. Succeeds exactly when
/// the track has a title and carries a matching transcoding with a
/// resolution URL and a known protocol; the plan then names that
/// transcoding's URL, the output path built from the chosen name and
/// destination, and the method its protocol calls for.
pub fn plan_download(
    track: &Track,
    stream_type: Option<StreamType>,
    destination: Option<&str>,
    filename: Option<&str>,
) -> (r: Result<DownloadPlan, Error>)
    ensures
        r is Ok <==> spec_plan_possible(*track, stream_type),
        r matches Ok(plan) ==> {
            let ts = spec_track_transcodings(*track)->Some_0;
            let i = spec_first_match(ts, stream_type, 0)->Some_0;
            &&& plan.transcoding_url == ts[i].url->Some_0
            &&& plan.method == spec_download_method(ts[i])->Some_0
            &&& plan.output_path@ == spec_output_path(
                match destination {
                    Some(d) => Some(d@),
                    None => None,
                },
                spec_download_name(
                    *track,
                    match filename {
                        Some(f) => Some(f@),
                        None => None,
                    },
                ),
            )
        },
{
    let title: String = match &track.title {
        Some(t) => t.clone(),
        None => {
            return Err(Error::new(String::from_str("Track title is missing")));
        },
    };
    let name: String = match filename {
        Some(f) => f.to_owned(),
        None => title,
    };
    let transcoding = match get_transcoding_by_stream_type(track, stream_type) {
        Ok(t) => t,
        Err(e) => {
            return Err(e);
        },
    };
    let url = match &transcoding.url {
        Some(u) => u.clone(),
        None => {
            return Err(Error::new(String::from_str("Missing transcoding URL")));
        },
    };
    let method = match &transcoding.format {
        Some(f) => match f.protocol {
            Some(StreamType::Progressive) => DownloadMethod::Direct,
            Some(StreamType::Hls) => DownloadMethod::Remux,
            _ => {
                return Err(Error::new(String::from_str("Invalid Stream Type")));
            },
        },
        None => {
            return Err(Error::new(String::from_str("Invalid Stream Type")));
        },
    };
    let mut output_path = String::new();
    match destination {
        Some(d) => {
            output_path.append(d);
            output_path.append("/");
        },
        None => {},
    }
    output_path.append(name.as_str());
    output_path.append(".mp3");
    proof {
        reveal_strlit("/");
        assert("/"@ =~= seq!['/']);
        match destination {
            Some(d) => {
                assert(output_path@ =~= d@ + seq!['/'] + name@ + ".mp3"@);
            },
            None => {
                assert(output_path@ =~= name@ + ".mp3"@);
            },
        }
    }
    Ok(DownloadPlan { transcoding_url: url, output_path, method })
}

/// The resolved stream URL carried by a resolution response: exactly when the
/// response holds one.
pub fn extract_stream_url(stream: &Stream) -> (r: Result<String, Error>)
    ensures
        match stream.url {
            Some(u) => r == Ok::<String, Error>(u),
            None => r is Err,
        },
{
    match &stream.url {
        Some(u) => Ok(u.clone()),
        None => Err(Error::new(String::from_str("Missing resolved stream URL"))),
    }
}

/// The playlist directory a playlist download writes into: the explicit name
/// when one is given, else the playlist title, under the destination
/// directory when one is given. `playlist_title` is the title carried by the
/// fetched playlist.
pub fn plan_playlist_dir(
    playlist_title: &Option<String>,
    destination: Option<&str>,
    playlist_name: Option<&str>,
) -> (r: Result<String, Error>)
    ensures
        r is Ok <==> (playlist_name is Some || playlist_title is Some),
        r matches Ok(dir) ==> {
            let name = match playlist_name {
                Some(n) => n@,
                None => playlist_title->Some_0@,
            };
            dir@ == match destination {
                Some(d) => d@ + seq!['/'] + name,
                None => name,
            }
        },
{
    let name: String = match playlist_name {
        Some(n) => n.to_owned(),
        None => match playlist_title {
            Some(t) => t.clone(),
            None => {
                return Err(Error::new(String::from_str("Missing playlist title")));
            },
        },
    };
    let mut dir = String::new();
    match destination {
        Some(d) => {
            dir.append(d);
            dir.append("/");
        },
        None => {},
    }
    dir.append(name.as_str());
    proof {
        reveal_strlit("/");
        assert("/"@ =~= seq!['/']);
        match destination {
            Some(d) => {
                assert(dir@ =~= d@ + seq!['/'] + name@);
            },
            None => {
                assert(dir@ =~= name@);
            },
        }
    }
    Ok(dir)
}

} // verus!
