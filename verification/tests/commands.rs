use obs_replay::commands::{
    command_action, connect_answer, datagram_text, goal_datagram, is_clip_key_release,
    is_goal_command, obs_version_answer, CommandAction, CommandData, COMMAND_PORT, GOALS_DELAY_MS,
};
use obs_replay::connection::{ObsClass, ObsConnection};
use obs_replay::events::{event_action, EventAction, ObsEvent};
use obs_replay::protocol::{ObsOperation, ObsRequest};
use obs_replay::settings::{replay_settings, PlaybackBehavior};
use obs_replay::task::Step;

fn command(cmd: &str) -> CommandData {
    CommandData { cmd: cmd.to_string(), data: None }
}

#[test]
fn goals_command_captures_after_delay() {
    assert_eq!(command_action(&command("goals")), CommandAction::CaptureReplay { delay_ms: 2000 });
    assert_eq!(GOALS_DELAY_MS, 2000);
}

#[test]
fn instant_goals_command_captures_at_once() {
    assert_eq!(command_action(&command("__goals__")), CommandAction::CaptureReplay { delay_ms: 0 });
}

#[test]
fn other_commands_are_ignored() {
    assert_eq!(command_action(&command("Goals")), CommandAction::Ignore);
    assert_eq!(command_action(&command("")), CommandAction::Ignore);
    let with_data = CommandData { cmd: "stop".to_string(), data: Some("{}".to_string()) };
    assert_eq!(command_action(&with_data), CommandAction::Ignore);
}

#[test]
fn plain_listener_reacts_to_goals_only() {
    assert!(is_goal_command(&command("goals")));
    assert!(!is_goal_command(&command("__goals__")));
}

#[test]
fn datagram_text_decodes_received_prefix() {
    let mut buffer = [0u8; 16];
    buffer[..5].copy_from_slice(b"hello");
    assert_eq!(datagram_text(&buffer, 5), Some("hello".to_string()));
    assert_eq!(datagram_text(&buffer, 0), Some(String::new()));
    let utf8 = "é!".as_bytes();
    assert_eq!(datagram_text(utf8, utf8.len()), Some("é!".to_string()));
}

#[test]
fn datagram_text_rejects_invalid_utf8() {
    let bytes = [0x66u8, 0xff, 0x66];
    assert_eq!(datagram_text(&bytes, 3), None);
    // The invalid byte is outside the received length.
    assert_eq!(datagram_text(&bytes, 1), Some("f".to_string()));
    // A truncated two-byte sequence.
    let cut = "é".as_bytes();
    assert_eq!(datagram_text(cut, 1), None);
}

#[test]
fn goal_datagram_is_instant_goals_command() {
    let bytes = goal_datagram();
    let text = datagram_text(&bytes, bytes.len()).expect("goal datagram is UTF-8");
    assert_eq!(text, r#"{"cmd":"__goals__"}"#);
    let value: serde_json::Value = serde_json::from_str(&text).expect("goal datagram is JSON");
    let cmd = value["cmd"].as_str().expect("cmd is a string").to_string();
    let parsed = CommandData { cmd, data: None };
    assert_eq!(command_action(&parsed), CommandAction::CaptureReplay { delay_ms: 0 });
    assert_eq!(COMMAND_PORT, 12345);
}

#[test]
fn clip_key_release_is_enter_key_up() {
    assert!(is_clip_key_release(0, 0x0101, 13));
    assert!(!is_clip_key_release(0, 0x0100, 13));
    assert!(!is_clip_key_release(0, 0x0101, 14));
    assert!(!is_clip_key_release(-1, 0x0101, 13));
    assert!(!is_clip_key_release(3, 0x0101, 13));
    // The message is read as a 32-bit number.
    assert!(is_clip_key_release(0, (1usize << 32) | 0x0101, 13) == (usize::BITS == 64));
}

#[test]
fn saved_replay_is_announced() {
    let action = event_action(ObsEvent::ReplayBufferSaved { path: "/clips/replay.mkv".to_string() });
    assert_eq!(action, EventAction::AnnounceCapture { path: "/clips/replay.mkv".to_string() });
    let ended = ObsEvent::MediaInputPlaybackEnded { input_name: "vlc_source".to_string() };
    assert_eq!(event_action(ended), EventAction::Ignore);
    assert_eq!(event_action(ObsEvent::Other), EventAction::Report);
}

#[test]
fn command_answers() {
    assert_eq!(obs_version_answer(Ok("30.0.0".to_string())), Ok("30.0.0".to_string()));
    assert_eq!(obs_version_answer(Err("Not connected to OBS".to_string())), Err("Failed to get OBS version".to_string()));
    assert_eq!(connect_answer(Ok(true)), Ok("Connected to OBS".to_string()));
    assert_eq!(connect_answer(Err("x".to_string())), Err("Failed to connect to OBS".to_string()));
}

#[test]
fn connection_keeps_client_of_last_success() {
    let mut obs: ObsClass<u32> = ObsClass::new();
    assert!(!obs.is_connected());
    assert_eq!(obs.get_client(), Err("Not connected to OBS".to_string()));
    assert_eq!(obs.connect_finished(Err::<u32, &str>("refused")), Err("Failed to connect to OBS".to_string()));
    assert!(obs.client.is_none());
    assert_eq!(obs.connect_finished(Ok::<u32, &str>(7)), Ok(true));
    assert_eq!(obs.get_client(), Ok(&7));
    assert_eq!(obs.connect_finished(Err::<u32, &str>("refused")), Err("Failed to connect to OBS".to_string()));
    assert_eq!(obs.get_client(), Ok(&7));
    match obs.begin(ObsOperation::CaptureReplayBuffer) {
        Step::Send { request, .. } => assert_eq!(request, ObsRequest::SaveReplayBuffer),
        other => panic!("unexpected step {:?}", other),
    }
}

#[test]
fn connection_parameters() {
    let data = ObsConnection::new("localhost".to_string(), 4455, "secret".to_string());
    assert_eq!(data.password_option(), Some("secret".to_string()));
    assert_eq!(data.port, 4455);
}

#[test]
fn replay_settings_formula() {
    let settings = replay_settings(&vec!["x.mp4".to_string(), "y.mp4".to_string(), "x.mp4".to_string()]);
    assert!(!settings.loop_playlist);
    assert!(!settings.shuffle);
    assert_eq!(settings.playback_behavior, PlaybackBehavior::StopRestart);
    assert_eq!(settings.network_caching_ms, 100);
    assert_eq!(settings.track, 1);
    assert!(!settings.subtitle_enable);
    assert_eq!(settings.subtitle, 0);
    let paths: Vec<&str> = settings.playlist.iter().map(|e| e.path.as_str()).collect();
    assert_eq!(paths, vec!["x.mp4", "y.mp4", "x.mp4"]);
    assert!(settings.playlist.iter().all(|e| !e.hidden && !e.selected));
}

#[test]
fn connection_persists_over_later_failed_attempts() {
    let mut obs: ObsClass<u32> = ObsClass::new();
    let attempts: Vec<Result<u32, &str>> = vec![Err("down"), Ok(3), Err("refused"), Err("timeout"), Err("refused")];
    for attempt in attempts {
        let _ = obs.connect_finished(attempt);
    }
    assert_eq!(obs.get_client(), Ok(&3));
    match obs.begin(ObsOperation::GetVersion) {
        Step::Send { request, .. } => assert_eq!(request, ObsRequest::GetVersion),
        other => panic!("unexpected step {:?}", other),
    }
}
