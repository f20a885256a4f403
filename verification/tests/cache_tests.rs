//! Tests of the acquisition cache: deterministic cache names, the
//! single-flight claim protocol, resolution decisions, and persistence
//! across fresh in-memory states.

use scout_core::cache::{
    get_youtube_cache_path, is_youtube_url, youtube_url_to_cache_filename, CacheError,
    ResolveAction, YouTubeCacheState,
};

#[test]
fn cache_filename_matches_known_hash_values() {
    // 64-bit FNV-1a of the empty input is the offset basis; of "a" it is a
    // published reference value.
    assert_eq!(youtube_url_to_cache_filename(""), "cbf29ce484222325.mp3");
    assert_eq!(youtube_url_to_cache_filename("a"), "af63dc4c8601ec8c.mp3");
}

#[test]
fn cache_errors_render_their_messages() {
    let missing = CacheError::NotFound { path: "/missing.wav".to_string() };
    assert_eq!(missing.message(), "Sound file not found at /missing.wav");
    let failed = CacheError::DownloadFailed { reason: "network unreachable".to_string() };
    assert_eq!(failed.message(), "Download failed: network unreachable");
}

#[test]
fn cache_filename_is_deterministic_and_distinct() {
    let a1 = youtube_url_to_cache_filename("https://youtube.com/watch?v=abc");
    let a2 = youtube_url_to_cache_filename("https://youtube.com/watch?v=abc");
    let b = youtube_url_to_cache_filename("https://youtube.com/watch?v=xyz");
    assert_eq!(a1, a2);
    assert_ne!(a1, b);
    // sixteen hex digits plus the extension
    assert_eq!(a1.len(), 20);
    assert!(a1.ends_with(".mp3"));
    assert!(a1.chars().take(16).all(|c| c.is_ascii_hexdigit()));
}

#[test]
fn cache_path_joins_directory_and_filename() {
    let p = get_youtube_cache_path("/data/cache/youtube-audio", "https://youtu.be/abc");
    let name = youtube_url_to_cache_filename("https://youtu.be/abc");
    assert_eq!(p, format!("/data/cache/youtube-audio/{}", name));
}

#[test]
fn youtube_urls_are_recognized() {
    assert!(is_youtube_url("https://www.youtube.com/watch?v=abc"));
    assert!(is_youtube_url("https://youtu.be/abc"));
    assert!(!is_youtube_url("https://example.com/sound.mp3"));
}

#[test]
fn fifty_racing_claims_grant_exactly_one_download() {
    let mut state = YouTubeCacheState::new();
    let url = "https://youtube.com/watch?v=abc";
    let mut granted = 0;
    for _ in 0..50 {
        if state.try_start_download(url) {
            granted += 1;
        }
    }
    assert_eq!(granted, 1);

    // after the download finishes every requester sees the same path and no
    // further claim is granted
    state.finish_download(url, "/cache/abc.mp3".to_string());
    assert_eq!(state.get_cached_path(url).map(|p| p.as_str()), Some("/cache/abc.mp3"));
    assert!(!state.try_start_download(url));
}

#[test]
fn failed_download_allows_a_retry() {
    let mut state = YouTubeCacheState::new();
    let url = "https://youtube.com/watch?v=abc";
    assert!(state.try_start_download(url));
    state.fail_download(url);
    assert!(state.try_start_download(url));
}

#[test]
fn claims_for_distinct_sources_are_independent() {
    let mut state = YouTubeCacheState::new();
    assert!(state.try_start_download("https://youtube.com/a"));
    assert!(state.try_start_download("https://youtube.com/b"));
    assert!(state.is_downloading("https://youtube.com/a"));
    assert!(state.is_downloading("https://youtube.com/b"));
}

#[test]
fn disk_hit_resolves_a_fresh_state_without_downloading() {
    // A file cached by an earlier session survives on disk: a fresh
    // in-memory state resolves it at once, and no download starts.
    let mut fresh = YouTubeCacheState::new();
    let url = "https://youtube.com/watch?v=abc";
    match fresh.resolve_step(url, true, "/cache/abc.mp3") {
        ResolveAction::UseLocal { path } => assert_eq!(path, "/cache/abc.mp3"),
        other => panic!("expected a local hit, got {:?}", other),
    }
    assert!(!fresh.is_downloading(url));

    // a later request is served from memory
    match fresh.resolve_step(url, false, "/cache/abc.mp3") {
        ResolveAction::UseLocal { path } => assert_eq!(path, "/cache/abc.mp3"),
        other => panic!("expected a memory hit, got {:?}", other),
    }
}

#[test]
fn unresolved_source_grants_download_then_defers_followers() {
    let mut state = YouTubeCacheState::new();
    let url = "https://youtube.com/watch?v=abc";
    assert!(matches!(state.resolve_step(url, false, "/cache/abc.mp3"), ResolveAction::Download));
    assert!(matches!(state.resolve_step(url, false, "/cache/abc.mp3"), ResolveAction::Wait));
}

#[test]
fn start_and_finish_lifecycle_tracks_state() {
    let mut state = YouTubeCacheState::new();
    let url = "https://youtube.com/watch?v=abc";
    assert!(!state.is_downloading(url));
    state.start_download(url);
    assert!(state.is_downloading(url));
    assert!(state.get_cached_path(url).is_none());
    state.finish_download(url, "/cache/abc.mp3".to_string());
    assert!(!state.is_downloading(url));
    assert!(state.get_cached_path(url).is_some());
}
