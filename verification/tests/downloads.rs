use soundcloud_rs::download::{
    extract_stream_url, get_transcoding_by_stream_type, plan_download, plan_playlist_dir,
    DownloadMethod,
};
use soundcloud_rs::response::{Media, Stream, StreamType, Track, Transcoding, TranscodingFormat};

fn transcoding(url: &str, protocol: Option<StreamType>) -> Transcoding {
    Transcoding {
        url: Some(url.to_string()),
        format: Some(TranscodingFormat {
            protocol,
            mime_type: None,
        }),
        ..Default::default()
    }
}

fn track_with(transcodings: Vec<Transcoding>) -> Track {
    Track {
        title: Some("song".to_string()),
        media: Some(Media {
            transcodings: Some(transcodings),
        }),
        ..Default::default()
    }
}

#[test]
fn selects_first_matching_transcoding() {
    let track = track_with(vec![
        transcoding("https://cdn.test/hls", Some(StreamType::Hls)),
        transcoding("https://cdn.test/prog", Some(StreamType::Progressive)),
    ]);
    let t = get_transcoding_by_stream_type(&track, Some(StreamType::Progressive)).unwrap();
    assert_eq!(t.url, Some("https://cdn.test/prog".to_string()));
    let t = get_transcoding_by_stream_type(&track, Some(StreamType::Hls)).unwrap();
    assert_eq!(t.url, Some("https://cdn.test/hls".to_string()));
}

#[test]
fn unspecified_stream_type_takes_first_known_protocol() {
    let track = track_with(vec![
        transcoding("https://cdn.test/other", Some(StreamType::Other)),
        Transcoding {
            url: Some("https://cdn.test/noformat".to_string()),
            ..Default::default()
        },
        transcoding("https://cdn.test/hls", Some(StreamType::Hls)),
    ]);
    let t = get_transcoding_by_stream_type(&track, None).unwrap();
    assert_eq!(t.url, Some("https://cdn.test/hls".to_string()));
}

#[test]
fn catch_all_stream_type_takes_first_known_protocol() {
    // Asking for the catch-all variant behaves like asking for nothing: the
    // first transcoding with a known protocol wins, never one whose protocol
    // is itself the catch-all.
    let track = track_with(vec![
        transcoding("https://cdn.test/other", Some(StreamType::Other)),
        transcoding("https://cdn.test/hls", Some(StreamType::Hls)),
        transcoding("https://cdn.test/prog", Some(StreamType::Progressive)),
    ]);
    let t = get_transcoding_by_stream_type(&track, Some(StreamType::Other)).unwrap();
    assert_eq!(t.url, Some("https://cdn.test/hls".to_string()));
    let plan = plan_download(&track, Some(StreamType::Other), None, None).unwrap();
    assert_eq!(plan.transcoding_url, "https://cdn.test/hls".to_string());
    assert_eq!(plan.method, DownloadMethod::Remux);
}

#[test]
fn empty_transcodings_are_an_error() {
    let track = track_with(Vec::new());
    assert!(get_transcoding_by_stream_type(&track, None).is_err());
}

#[test]
fn missing_media_is_an_error() {
    let track = Track {
        title: Some("song".to_string()),
        ..Default::default()
    };
    assert!(get_transcoding_by_stream_type(&track, None).is_err());
}

#[test]
fn no_matching_protocol_is_an_error() {
    let track = track_with(vec![transcoding(
        "https://cdn.test/other",
        Some(StreamType::Other),
    )]);
    assert!(get_transcoding_by_stream_type(&track, None).is_err());
}

#[test]
fn plans_progressive_download() {
    let track = track_with(vec![transcoding(
        "https://cdn.test/prog",
        Some(StreamType::Progressive),
    )]);
    let plan = plan_download(&track, None, Some("./downloads"), None).unwrap();
    assert_eq!(plan.transcoding_url, "https://cdn.test/prog".to_string());
    assert_eq!(plan.output_path, "./downloads/song.mp3".to_string());
    assert_eq!(plan.method, DownloadMethod::Direct);
}

#[test]
fn plans_hls_download_as_remux() {
    let track = track_with(vec![transcoding(
        "https://cdn.test/hls",
        Some(StreamType::Hls),
    )]);
    let plan = plan_download(&track, Some(StreamType::Hls), None, None).unwrap();
    assert_eq!(plan.output_path, "song.mp3".to_string());
    assert_eq!(plan.method, DownloadMethod::Remux);
}

#[test]
fn plan_uses_explicit_filename() {
    let track = track_with(vec![transcoding(
        "https://cdn.test/prog",
        Some(StreamType::Progressive),
    )]);
    let plan = plan_download(&track, None, None, Some("renamed")).unwrap();
    assert_eq!(plan.output_path, "renamed.mp3".to_string());
}

#[test]
fn plan_without_title_is_an_error() {
    let mut track = track_with(vec![transcoding(
        "https://cdn.test/prog",
        Some(StreamType::Progressive),
    )]);
    track.title = None;
    assert!(plan_download(&track, None, None, Some("renamed")).is_err());
}

#[test]
fn plan_without_transcoding_url_is_an_error() {
    let mut t = transcoding("", Some(StreamType::Progressive));
    t.url = None;
    let track = track_with(vec![t]);
    assert!(plan_download(&track, None, None, None).is_err());
}

#[test]
fn extracts_resolved_stream_url() {
    let stream = Stream {
        url: Some("https://cdn.test/signed".to_string()),
    };
    assert_eq!(
        extract_stream_url(&stream).unwrap(),
        "https://cdn.test/signed".to_string()
    );
    let empty = Stream { url: None };
    assert!(extract_stream_url(&empty).is_err());
}

#[test]
fn playlist_dir_prefers_explicit_name() {
    let title = Some("album".to_string());
    assert_eq!(
        plan_playlist_dir(&title, Some("./out"), Some("mine")).unwrap(),
        "./out/mine".to_string()
    );
    assert_eq!(
        plan_playlist_dir(&title, None, None).unwrap(),
        "album".to_string()
    );
    assert!(plan_playlist_dir(&None, Some("./out"), None).is_err());
}
