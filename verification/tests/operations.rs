use obs_replay::protocol::{ObsOperation, ObsReply, ObsRequest, Outcome, SceneItemEntry};
use obs_replay::settings::{PlaybackBehavior, PlaylistEntry, VlcSettings};
use obs_replay::task::{start, ObsTask, Stage, Step};

/// A scripted OBS: it answers each request from its fields, and fails the
/// requests named in `failing`.
struct FakeObs {
    version: String,
    inputs: Vec<String>,
    scenes: Vec<u128>,
    items: Vec<(i64, &'static str)>,
    buffer_active: bool,
    failing: Vec<&'static str>,
    scene_calls: usize,
}

impl FakeObs {
    fn new() -> Self {
        FakeObs {
            version: "30.1.2".to_string(),
            inputs: vec!["mic".to_string()],
            scenes: vec![77],
            items: vec![(1, "camera"), (5, "vlc_source"), (8, "vlc_source")],
            buffer_active: false,
            failing: vec![],
            scene_calls: 0,
        }
    }

    fn fails(&self, name: &str) -> bool {
        self.failing.contains(&name)
    }

    fn answer(&mut self, request: &ObsRequest) -> ObsReply {
        let name = match request {
            ObsRequest::GetVersion => "version",
            ObsRequest::ListInputs { .. } => "inputs",
            ObsRequest::GetCurrentProgramScene => "scene",
            ObsRequest::CreateInput { .. } => "create",
            ObsRequest::SetInputSettings { .. } => "settings",
            ObsRequest::ListSceneItems { .. } => "items",
            ObsRequest::SetSceneItemEnabled { .. } => "enable",
            ObsRequest::SubscribeEvents => "events",
            ObsRequest::ReplayBufferStatus => "status",
            ObsRequest::StartReplayBuffer => "start",
            ObsRequest::SaveReplayBuffer => "save",
        };
        if self.fails(name) {
            return ObsReply::Failed(format!("{} refused", name));
        }
        match request {
            ObsRequest::GetVersion => ObsReply::Version(self.version.clone()),
            ObsRequest::ListInputs { .. } => ObsReply::Inputs(self.inputs.clone()),
            ObsRequest::GetCurrentProgramScene => {
                let i = self.scene_calls.min(self.scenes.len() - 1);
                self.scene_calls += 1;
                ObsReply::Scene(self.scenes[i])
            },
            ObsRequest::ListSceneItems { .. } => ObsReply::SceneItems(
                self.items
                    .iter()
                    .map(|(id, n)| SceneItemEntry { id: *id, source_name: n.to_string() })
                    .collect(),
            ),
            ObsRequest::ReplayBufferStatus => ObsReply::Active(self.buffer_active),
            _ => ObsReply::Done,
        }
    }
}

fn run(op: ObsOperation, connected: bool, obs: &mut FakeObs) -> (Vec<ObsRequest>, Result<Outcome, String>) {
    let mut sent = Vec::new();
    let mut step = start(op, connected);
    loop {
        match step {
            Step::Finish(result) => return (sent, result),
            Step::Send { request, then } => {
                let reply = obs.answer(&request);
                sent.push(request);
                assert!(then.accepts(&reply));
                step = then.resume(reply);
            },
        }
    }
}

fn replay_settings(paths: &[&str]) -> VlcSettings {
    VlcSettings {
        loop_playlist: false,
        shuffle: false,
        playback_behavior: PlaybackBehavior::StopRestart,
        playlist: paths
            .iter()
            .map(|p| PlaylistEntry { path: p.to_string(), hidden: false, selected: false })
            .collect(),
        network_caching_ms: 100,
        track: 1,
        subtitle_enable: false,
        subtitle: 0,
    }
}

fn all_operations() -> Vec<ObsOperation> {
    vec![
        ObsOperation::GetVersion,
        ObsOperation::IsExistVlcSource,
        ObsOperation::InitVlcSource,
        ObsOperation::PlayVlcSource { movie_paths: vec!["a.mp4".to_string()] },
        ObsOperation::OnPlaybackEnded { input_name: "vlc_source".to_string() },
        ObsOperation::GenerateEventListener,
        ObsOperation::SetReplayBuffer,
        ObsOperation::CaptureReplayBuffer,
        ObsOperation::LoginInit,
    ]
}

#[test]
fn not_connected_fails_every_operation_without_requests() {
    for op in all_operations() {
        let mut obs = FakeObs::new();
        let (sent, result) = run(op, false, &mut obs);
        assert!(sent.is_empty());
        assert_eq!(result, Err("Not connected to OBS".to_string()));
    }
}

#[test]
fn every_operation_sends_at_most_six_requests() {
    for op in all_operations() {
        let mut obs = FakeObs::new();
        let (sent, result) = run(op, true, &mut obs);
        assert!(sent.len() <= 6);
        assert!(result.is_ok());
    }
}

#[test]
fn get_version_reports_version() {
    let mut obs = FakeObs::new();
    let (sent, result) = run(ObsOperation::GetVersion, true, &mut obs);
    assert_eq!(sent, vec![ObsRequest::GetVersion]);
    assert_eq!(result, Ok(Outcome::Version("30.1.2".to_string())));
}

#[test]
fn get_version_failure() {
    let mut obs = FakeObs::new();
    obs.failing = vec!["version"];
    let (_, result) = run(ObsOperation::GetVersion, true, &mut obs);
    assert_eq!(result, Err("Failed to get OBS version".to_string()));
}

#[test]
fn is_exist_vlc_source_reports_presence() {
    let mut obs = FakeObs::new();
    let (sent, result) = run(ObsOperation::IsExistVlcSource, true, &mut obs);
    assert_eq!(sent, vec![ObsRequest::ListInputs { kind: "vlc_source".to_string() }]);
    assert_eq!(result, Ok(Outcome::Present(false)));
    obs.inputs.push("vlc_source".to_string());
    let (_, result) = run(ObsOperation::IsExistVlcSource, true, &mut obs);
    assert_eq!(result, Ok(Outcome::Present(true)));
    obs.failing = vec!["inputs"];
    let (_, result) = run(ObsOperation::IsExistVlcSource, true, &mut obs);
    assert_eq!(result, Err("Failed to get VLC source".to_string()));
}

#[test]
fn init_vlc_source_creates_hidden_source() {
    let mut obs = FakeObs::new();
    let (sent, result) = run(ObsOperation::InitVlcSource, true, &mut obs);
    assert_eq!(
        sent,
        vec![
            ObsRequest::ListInputs { kind: "vlc_source".to_string() },
            ObsRequest::GetCurrentProgramScene,
            ObsRequest::CreateInput {
                scene: 77,
                input: "vlc_source".to_string(),
                kind: "vlc_source".to_string(),
                settings: replay_settings(&[]),
                item_enabled: Some(false),
            },
        ]
    );
    assert_eq!(result, Ok(Outcome::Nothing));
}

#[test]
fn init_vlc_source_keeps_existing_source() {
    let mut obs = FakeObs::new();
    obs.inputs = vec!["vlc_source".to_string()];
    let (sent, result) = run(ObsOperation::InitVlcSource, true, &mut obs);
    assert_eq!(sent.len(), 1);
    assert_eq!(result, Ok(Outcome::Nothing));
}

#[test]
fn init_vlc_source_ignores_failed_creation() {
    let mut obs = FakeObs::new();
    obs.failing = vec!["create"];
    let (sent, result) = run(ObsOperation::InitVlcSource, true, &mut obs);
    assert_eq!(sent.len(), 3);
    assert_eq!(result, Ok(Outcome::Nothing));
}

#[test]
fn init_vlc_source_scene_failure() {
    let mut obs = FakeObs::new();
    obs.failing = vec!["scene"];
    let (sent, result) = run(ObsOperation::InitVlcSource, true, &mut obs);
    assert_eq!(sent.len(), 2);
    assert_eq!(result, Err("Failed to get current scene".to_string()));
}

#[test]
fn play_vlc_source_sets_playlist_and_shows_first_replay_item() {
    let mut obs = FakeObs::new();
    let paths = vec!["c:/clips/one.mp4".to_string(), "c:/clips/two.mp4".to_string()];
    let (sent, result) = run(ObsOperation::PlayVlcSource { movie_paths: paths }, true, &mut obs);
    assert_eq!(
        sent,
        vec![
            ObsRequest::GetCurrentProgramScene,
            ObsRequest::SetInputSettings {
                input: "vlc_source".to_string(),
                settings: replay_settings(&["c:/clips/one.mp4", "c:/clips/two.mp4"]),
                overlay: Some(true),
            },
            ObsRequest::ListSceneItems { scene: 77 },
            ObsRequest::SetSceneItemEnabled { scene: 77, item_id: 5, enabled: true },
        ]
    );
    assert_eq!(result, Ok(Outcome::Nothing));
}

#[test]
fn play_vlc_source_errors() {
    let cases = [
        ("scene", "Failed to get current scene".to_string()),
        ("settings", "Failed to create VLC source: settings refused".to_string()),
        ("items", "Failed to get scene items".to_string()),
        ("enable", "Failed to set VLC source enabled: enable refused".to_string()),
    ];
    for (failing, message) in cases {
        let mut obs = FakeObs::new();
        obs.failing = vec![failing];
        let (_, result) = run(ObsOperation::PlayVlcSource { movie_paths: vec![] }, true, &mut obs);
        assert_eq!(result, Err(message));
    }
}

#[test]
fn missing_replay_item_is_not_accepted() {
    let task = ObsTask { stage: Stage::ItemsToEnable { scene: 1 }, login: false };
    let items = vec![SceneItemEntry { id: 3, source_name: "camera".to_string() }];
    assert!(!task.accepts(&ObsReply::SceneItems(items)));
    assert!(task.accepts(&ObsReply::Failed("x".to_string())));
    assert!(!task.accepts(&ObsReply::Done));
}

#[test]
fn playback_end_of_other_input_is_ignored() {
    let mut obs = FakeObs::new();
    let op = ObsOperation::OnPlaybackEnded { input_name: "camera".to_string() };
    let (sent, result) = run(op, true, &mut obs);
    assert!(sent.is_empty());
    assert_eq!(result, Ok(Outcome::Nothing));
}

#[test]
fn playback_end_hides_replay_item_in_first_scene() {
    let mut obs = FakeObs::new();
    obs.scenes = vec![10, 20];
    let op = ObsOperation::OnPlaybackEnded { input_name: "vlc_source".to_string() };
    let (sent, result) = run(op, true, &mut obs);
    assert_eq!(
        sent,
        vec![
            ObsRequest::GetCurrentProgramScene,
            ObsRequest::GetCurrentProgramScene,
            ObsRequest::ListSceneItems { scene: 20 },
            ObsRequest::SetSceneItemEnabled { scene: 10, item_id: 5, enabled: false },
        ]
    );
    assert_eq!(result, Ok(Outcome::Nothing));
    obs.failing = vec!["enable"];
    let op = ObsOperation::OnPlaybackEnded { input_name: "vlc_source".to_string() };
    let (_, result) = run(op, true, &mut obs);
    assert_eq!(result, Err("Failed to set VLC source disabled: enable refused".to_string()));
}

#[test]
fn set_replay_buffer_starts_only_a_stopped_buffer() {
    let mut obs = FakeObs::new();
    let (sent, result) = run(ObsOperation::SetReplayBuffer, true, &mut obs);
    assert_eq!(sent, vec![ObsRequest::ReplayBufferStatus, ObsRequest::StartReplayBuffer]);
    assert_eq!(result, Ok(Outcome::Nothing));
    obs.buffer_active = true;
    let (sent, result) = run(ObsOperation::SetReplayBuffer, true, &mut obs);
    assert_eq!(sent, vec![ObsRequest::ReplayBufferStatus]);
    assert_eq!(result, Ok(Outcome::Nothing));
}

#[test]
fn set_replay_buffer_errors() {
    let mut obs = FakeObs::new();
    obs.failing = vec!["status"];
    let (_, result) = run(ObsOperation::SetReplayBuffer, true, &mut obs);
    assert_eq!(result, Err("Failed to get replay buffer state".to_string()));
    obs.failing = vec!["start"];
    let (_, result) = run(ObsOperation::SetReplayBuffer, true, &mut obs);
    assert_eq!(result, Err("Failed to start replay buffer".to_string()));
}

#[test]
fn capture_replay_buffer_saves() {
    let mut obs = FakeObs::new();
    let (sent, result) = run(ObsOperation::CaptureReplayBuffer, true, &mut obs);
    assert_eq!(sent, vec![ObsRequest::SaveReplayBuffer]);
    assert_eq!(result, Ok(Outcome::Nothing));
    obs.failing = vec!["save"];
    let (_, result) = run(ObsOperation::CaptureReplayBuffer, true, &mut obs);
    assert_eq!(result, Err("Failed to save replay buffer".to_string()));
}

#[test]
fn event_listener_subscription() {
    let mut obs = FakeObs::new();
    let (sent, result) = run(ObsOperation::GenerateEventListener, true, &mut obs);
    assert_eq!(sent, vec![ObsRequest::SubscribeEvents]);
    assert_eq!(result, Ok(Outcome::Nothing));
    obs.failing = vec!["events"];
    let (_, result) = run(ObsOperation::GenerateEventListener, true, &mut obs);
    assert_eq!(result, Err("Failed to generate events listener".to_string()));
}

#[test]
fn login_runs_buffer_source_then_events() {
    let mut obs = FakeObs::new();
    let (sent, result) = run(ObsOperation::LoginInit, true, &mut obs);
    assert_eq!(sent.len(), 6);
    assert_eq!(sent[0], ObsRequest::ReplayBufferStatus);
    assert_eq!(sent[1], ObsRequest::StartReplayBuffer);
    assert_eq!(sent[2], ObsRequest::ListInputs { kind: "vlc_source".to_string() });
    assert_eq!(sent[3], ObsRequest::GetCurrentProgramScene);
    assert!(matches!(sent[4], ObsRequest::CreateInput { scene: 77, .. }));
    assert_eq!(sent[5], ObsRequest::SubscribeEvents);
    assert_eq!(result, Ok(Outcome::Nothing));
}

#[test]
fn login_stops_at_first_error() {
    let mut obs = FakeObs::new();
    obs.buffer_active = true;
    obs.failing = vec!["inputs"];
    let (sent, result) = run(ObsOperation::LoginInit, true, &mut obs);
    assert_eq!(sent, vec![ObsRequest::ReplayBufferStatus, ObsRequest::ListInputs { kind: "vlc_source".to_string() }]);
    assert_eq!(result, Err("Failed to get VLC source".to_string()));
}
