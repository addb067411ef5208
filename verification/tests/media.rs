use widget_bridge::media::{
    command_succeeded, route_command, session_info, ticks_to_seconds, MediaAction,
    MediaControlCommand, MediaPoll, MediaSession, MediaStatus, TransportOutcome,
    MEDIA_POLL_MILLIS, TICKS_PER_SECOND,
};
use widget_bridge::thumbnail::{Thumbnail, ThumbnailError};

fn session() -> MediaSession {
    MediaSession {
        title: Some("Song".to_string()),
        artist: Some("Artist".to_string()),
        album: Some("Album".to_string()),
        app_id: Some("player.exe".to_string()),
        start_ticks: Some(0),
        end_ticks: Some(1_230_000_000),
        playback_status: Some(4),
        thumbnail: None,
    }
}

fn silent_session() -> MediaSession {
    MediaSession {
        title: None,
        artist: None,
        album: None,
        app_id: None,
        start_ticks: None,
        end_ticks: None,
        playback_status: None,
        thumbnail: None,
    }
}

fn command(text: &str) -> MediaControlCommand {
    MediaControlCommand { command: text.to_string() }
}

#[test]
fn ticks_become_whole_seconds() {
    assert_eq!(TICKS_PER_SECOND, 10_000_000);
    assert_eq!(ticks_to_seconds(37_000_000), 3);
    assert_eq!(ticks_to_seconds(0), 0);
    assert_eq!(ticks_to_seconds(9_999_999), 0);
    assert_eq!(ticks_to_seconds(10_000_000), 1);
    assert_eq!(ticks_to_seconds(1_230_000_000), 123);
    assert_eq!(ticks_to_seconds(i64::MAX), 922_337_203_685);
}

#[test]
fn negative_ticks_round_down() {
    assert_eq!(ticks_to_seconds(-1), -1);
    assert_eq!(ticks_to_seconds(-10_000_000), -1);
    assert_eq!(ticks_to_seconds(-10_000_001), -2);
    assert_eq!(ticks_to_seconds(i64::MIN), -922_337_203_686);
}

#[test]
fn every_platform_state_has_its_status() {
    assert_eq!(MediaStatus::from(0), MediaStatus::Closed);
    assert_eq!(MediaStatus::from(1), MediaStatus::Opened);
    assert_eq!(MediaStatus::from(2), MediaStatus::Changing);
    assert_eq!(MediaStatus::from(3), MediaStatus::Stopped);
    assert_eq!(MediaStatus::from(4), MediaStatus::Playing);
    assert_eq!(MediaStatus::from(5), MediaStatus::Paused);
}

#[test]
fn unknown_platform_state_is_closed() {
    assert_eq!(MediaStatus::from(6), MediaStatus::Closed);
    assert_eq!(MediaStatus::from(-1), MediaStatus::Closed);
    assert_eq!(MediaStatus::from(i32::MAX), MediaStatus::Closed);
    assert_eq!(MediaStatus::from(i32::MIN), MediaStatus::Closed);
}

#[test]
fn status_names() {
    assert_eq!(MediaStatus::Closed.name(), "Closed");
    assert_eq!(MediaStatus::Opened.name(), "Opened");
    assert_eq!(MediaStatus::Changing.name(), "Changing");
    assert_eq!(MediaStatus::Stopped.name(), "Stopped");
    assert_eq!(MediaStatus::Playing.name(), "Playing");
    assert_eq!(MediaStatus::Paused.name(), "Paused");
}

#[test]
fn getters_give_the_readings() {
    let s = session();
    assert_eq!(s.get_title(), "Song");
    assert_eq!(s.get_artist(), "Artist");
    assert_eq!(s.get_album(), "Album");
    assert_eq!(s.get_app_id(), "player.exe");
    assert_eq!(s.get_start_time(), 0);
    assert_eq!(s.get_end_time(), 123);
    assert_eq!(s.get_status(), MediaStatus::Playing);
}

#[test]
fn missing_readings_have_neutral_values() {
    let s = silent_session();
    assert_eq!(s.get_title(), "");
    assert_eq!(s.get_artist(), "");
    assert_eq!(s.get_album(), "");
    assert_eq!(s.get_app_id(), "");
    assert_eq!(s.get_start_time(), 0);
    assert_eq!(s.get_end_time(), 0);
    assert_eq!(s.get_status(), MediaStatus::Closed);
}

#[test]
fn missing_thumbnail_is_empty_and_white() {
    assert_eq!(
        session().get_thumbnail(),
        Ok((String::new(), vec![255, 255, 255]))
    );
}

#[test]
fn present_thumbnail_is_rendered() {
    let mut s = session();
    s.thumbnail = Some(Thumbnail { width: 1, height: 2, bgra: vec![10, 20, 30, 255, 20, 30, 40, 255] });
    let (url, color) = s.get_thumbnail().unwrap();
    assert!(url.starts_with("data:image/png;base64,iVBORw0KGgo"));
    assert_eq!(color, vec![35, 25, 15]);
}

#[test]
fn broken_thumbnail_is_an_error() {
    let mut s = session();
    s.thumbnail = Some(Thumbnail { width: 1, height: 1, bgra: vec![1, 2, 3] });
    assert_eq!(s.get_thumbnail(), Err(ThumbnailError::PartialPixel));
    assert!(matches!(session_info(Some(&s)), Err(ThumbnailError::PartialPixel)));
}

#[test]
fn session_in_one_line() {
    assert_eq!(session().to_text(), "Song - Artist (0)");
    let mut s = silent_session();
    s.start_ticks = Some(-25_000_000);
    assert_eq!(s.to_text(), " -  (-3)");
    s.title = Some("A".to_string());
    s.start_ticks = Some(12_345_678_900_000);
    assert_eq!(s.to_text(), "A -  (1234567)");
}

#[test]
fn open_session_gives_code_200() {
    let info = session_info(Some(&session())).unwrap();
    assert_eq!(info.status_code, 200);
    assert_eq!(info.title, "Song");
    assert_eq!(info.artist, "Artist");
    assert_eq!(info.album, "Album");
    assert_eq!(info.app_id, "player.exe");
    assert_eq!(info.start_time, 0);
    assert_eq!(info.end_time, 123);
    assert_eq!(info.media_status, MediaStatus::Playing);
    assert_eq!(info.thumbnail, "");
    assert_eq!(info.main_color, vec![255, 255, 255]);
}

#[test]
fn no_session_gives_code_402() {
    let info = session_info(None).unwrap();
    assert_eq!(info.status_code, 402);
    assert_eq!(info.main_color, vec![255, 255, 255]);
    assert_eq!(info.thumbnail, "");
    assert_eq!(info.title, "");
    assert_eq!(info.artist, "");
    assert_eq!(info.album, "");
    assert_eq!(info.app_id, "");
    assert_eq!(info.start_time, 0);
    assert_eq!(info.end_time, 0);
    assert_eq!(info.media_status, MediaStatus::Closed);
}

#[test]
fn commands_are_routed() {
    assert_eq!(route_command(&command("play_pause")), Some(MediaAction::Toggle));
    assert_eq!(route_command(&command("next")), Some(MediaAction::NextTrack));
    assert_eq!(route_command(&command("previous")), Some(MediaAction::PreviousTrack));
}

#[test]
fn unknown_commands_are_routed_nowhere() {
    assert_eq!(route_command(&command("")), None);
    assert_eq!(route_command(&command("play")), None);
    assert_eq!(route_command(&command("pause")), None);
    assert_eq!(route_command(&command("Play_Pause")), None);
    assert_eq!(route_command(&command("next ")), None);
    assert_eq!(route_command(&command("stop")), None);
}

#[test]
fn only_a_reported_success_succeeds() {
    assert!(command_succeeded(TransportOutcome::Completed(true)));
    assert!(!command_succeeded(TransportOutcome::Completed(false)));
    assert!(!command_succeeded(TransportOutcome::NoResult));
    assert!(!command_succeeded(TransportOutcome::NotStarted));
}

#[test]
fn first_round_without_session_sends_the_fallback() {
    let mut poll = MediaPoll::new();
    assert_eq!(poll, MediaPoll { listener_installed: false, session_open: false });
    let step = poll.tick(None).unwrap();
    assert_eq!(step.payload.status_code, 402);
    assert_eq!(step.payload.main_color, vec![255, 255, 255]);
    assert_eq!(step.payload.thumbnail, "");
    assert!(!step.install_listener);
    assert_eq!(step.sleep_millis, 500);
    assert_eq!(MEDIA_POLL_MILLIS, 500);
    assert_eq!(poll, MediaPoll { listener_installed: false, session_open: false });
}

#[test]
fn first_round_with_session_asks_for_the_listener() {
    let mut poll = MediaPoll::new();
    let step = poll.tick(Some(&session())).unwrap();
    assert!(step.install_listener);
    assert_eq!(step.payload.status_code, 200);
    assert_eq!(poll, MediaPoll { listener_installed: true, session_open: true });
}

#[test]
fn rounds_without_session_never_ask_for_the_listener() {
    let mut poll = MediaPoll::new();
    for _ in 0..5 {
        let step = poll.tick(None).unwrap();
        assert!(!step.install_listener);
        assert_eq!(step.payload.status_code, 402);
        assert!(!poll.listener_installed);
    }
    let step = poll.tick(Some(&session())).unwrap();
    assert!(step.install_listener);
    let step = poll.tick(None).unwrap();
    assert!(!step.install_listener);
    assert!(poll.listener_installed);
    assert!(!poll.session_open);
}

#[test]
fn polling_goes_on_after_a_round_without_session() {
    let mut poll = MediaPoll::new();
    poll.tick(None).unwrap();
    let again = poll.tick(None).unwrap();
    assert_eq!(again.payload.status_code, 402);
    assert_eq!(again.sleep_millis, 500);
    let found = poll.tick(Some(&session())).unwrap();
    assert_eq!(found.payload.status_code, 200);
    assert_eq!(found.payload.title, "Song");
    assert_eq!(found.payload.end_time, 123);
    assert_eq!(found.sleep_millis, 500);
    assert!(poll.session_open);
    let lost = poll.tick(None).unwrap();
    assert_eq!(lost.payload.status_code, 402);
    assert!(!poll.session_open);
}

#[test]
fn listener_is_installed_once() {
    let mut poll = MediaPoll::new();
    let mut installs = Vec::new();
    for round in 0..10 {
        let s = session();
        let step = if round % 3 == 0 { poll.tick(None) } else { poll.tick(Some(&s)) }.unwrap();
        if step.install_listener {
            installs.push(round);
        }
    }
    assert_eq!(installs, vec![1]);
}

#[test]
fn failed_round_leaves_the_state() {
    let mut poll = MediaPoll::new();
    let mut s = session();
    s.thumbnail = Some(Thumbnail { width: 1, height: 1, bgra: Vec::new() });
    assert!(matches!(poll.tick(Some(&s)), Err(ThumbnailError::NoPixels)));
    assert_eq!(poll, MediaPoll::new());
}

#[test]
fn command_reaches_an_open_session() {
    let mut poll = MediaPoll::new();
    poll.tick(Some(&session())).unwrap();
    let before = poll;
    assert_eq!(poll.command(&command("next")), Some(MediaAction::NextTrack));
    assert_eq!(poll.command(&command("play_pause")), Some(MediaAction::Toggle));
    assert_eq!(poll.command(&command("previous")), Some(MediaAction::PreviousTrack));
    assert_eq!(poll.command(&command("rewind")), None);
    assert_eq!(poll, before);
}

#[test]
fn command_without_session_does_nothing() {
    let mut poll = MediaPoll::new();
    assert_eq!(poll.command(&command("next")), None);
    poll.tick(None).unwrap();
    assert_eq!(poll.command(&command("play_pause")), None);
}
