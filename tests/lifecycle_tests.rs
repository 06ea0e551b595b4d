use tube_fetch::lifecycle::{AppState, FetchError, Lifecycle};
use tube_fetch::preferences::{DownloadType, Preferences};

const WATCH_URL: &str = "https://www.youtube.com/watch?v=dQw4w9WgXcQ";

fn dest() -> Option<String> {
    Some("/tmp/soundtrack.mp3".to_string())
}

#[test]
fn new_lifecycle_is_initial() {
    let l = Lifecycle::new();
    assert_eq!(l.state(), AppState::Initial);
    assert_eq!(l.attempt, 0);
    assert!(l.controls_enabled());
    assert_eq!(AppState::default(), AppState::Initial);
}

#[test]
fn start_resolves_video_id_from_url() {
    let mut l = Lifecycle::new();
    let req = l.start(WATCH_URL, dest(), DownloadType::VideoAudio).unwrap();
    assert_eq!(req.id, "dQw4w9WgXcQ");
    assert_eq!(req.destination, "/tmp/soundtrack.mp3");
    assert_eq!(req.mode, DownloadType::VideoAudio);
    assert_eq!(req.attempt, 1);
    assert_eq!(l.state(), AppState::Downloading);
    assert!(!l.controls_enabled());
}

#[test]
fn start_accepts_share_url() {
    let mut l = Lifecycle::new();
    let req = l.start("https://youtu.be/dQw4w9WgXcQ", dest(), DownloadType::AudioOnly).unwrap();
    assert_eq!(req.id, "dQw4w9WgXcQ");
}

#[test]
fn start_with_bad_url_fails_resolution() {
    let mut l = Lifecycle::new();
    assert!(l.start("not a video", dest(), DownloadType::AudioOnly).is_none());
    assert_eq!(l.state(), AppState::Failed(FetchError::IdentifierResolutionFailure));
    assert_eq!(l.attempt, 0);
    assert!(l.controls_enabled());
}

#[test]
fn start_without_destination_changes_nothing() {
    let mut l = Lifecycle::new();
    assert!(l.start(WATCH_URL, None, DownloadType::AudioOnly).is_none());
    assert_eq!(l, Lifecycle::new());
}

#[test]
fn trigger_while_downloading_is_noop() {
    let mut l = Lifecycle::new();
    l.start(WATCH_URL, dest(), DownloadType::AudioOnly).unwrap();
    let running = l;
    for _ in 0..3 {
        assert!(l.start(WATCH_URL, dest(), DownloadType::AudioOnly).is_none());
        assert_eq!(l, running);
    }
    assert!(l.start_with_id(Some("dQw4w9WgXcQ".to_string()), dest(), DownloadType::AudioOnly).is_none());
    assert_eq!(l, running);
}

#[test]
fn edit_after_done_returns_to_initial() {
    let mut l = Lifecycle::new();
    let req = l.start(WATCH_URL, dest(), DownloadType::AudioOnly).unwrap();
    l.finish(req.attempt, Ok(()));
    assert_eq!(l.state(), AppState::Done);
    l.edit_url();
    assert_eq!(l.state(), AppState::Initial);
    assert_eq!(l.attempt, req.attempt);
}

#[test]
fn edit_while_downloading_is_ignored() {
    let mut l = Lifecycle::new();
    l.start(WATCH_URL, dest(), DownloadType::AudioOnly).unwrap();
    l.edit_url();
    assert_eq!(l.state(), AppState::Downloading);
}

#[test]
fn finish_with_error_fails() {
    let mut l = Lifecycle::new();
    let req = l.start(WATCH_URL, dest(), DownloadType::AudioOnly).unwrap();
    l.finish(req.attempt, Err(FetchError::TransferFailure));
    assert_eq!(l.state(), AppState::Failed(FetchError::TransferFailure));
    l.edit_url();
    assert_eq!(l.state(), AppState::Initial);
}

#[test]
fn finish_of_other_attempt_is_ignored() {
    let mut l = Lifecycle::new();
    let req = l.start(WATCH_URL, dest(), DownloadType::AudioOnly).unwrap();
    l.finish(req.attempt + 1, Err(FetchError::StreamSelectionFailure));
    assert_eq!(l.state(), AppState::Downloading);
}

#[test]
fn attempts_are_numbered_in_order() {
    let mut l = Lifecycle::new();
    let first = l.start(WATCH_URL, dest(), DownloadType::AudioOnly).unwrap();
    l.finish(first.attempt, Ok(()));
    let second = l.start(WATCH_URL, dest(), DownloadType::AudioOnly).unwrap();
    assert_eq!(second.attempt, first.attempt + 1);
    let mut last = Lifecycle { state: AppState::Done, attempt: u64::MAX };
    let wrapped = last.start_with_id(Some("x".to_string()), dest(), DownloadType::AudioOnly).unwrap();
    assert_eq!(wrapped.attempt, 0);
}

#[test]
fn download_type_labels() {
    assert_eq!(DownloadType::AudioOnly.to_string(), "Audio Only");
    assert_eq!(DownloadType::VideoAudio.to_string(), "Video + Audio");
    assert_eq!(DownloadType::default(), DownloadType::AudioOnly);
}

#[test]
fn preferences_default() {
    let p = Preferences::default();
    assert_eq!(p.url, "");
    assert_eq!(p.download_type, DownloadType::AudioOnly);
}
