//! The OBS operations as a state machine: the program performs each request the
//! machine sends and hands the reply back, until the operation finishes.
use vstd::prelude::*;
use crate::names::{
    owned, prefixed, BUFFER_SAVE_FAILED, BUFFER_START_FAILED, BUFFER_STATE_FAILED, DISABLE_FAILED,
    ENABLE_FAILED, EVENTS_FAILED, INPUTS_FAILED, NOT_CONNECTED, PLAYLIST_FAILED,
    REPLAY_SOURCE_NAME, SCENE_FAILED, SCENE_ITEMS_FAILED, VERSION_FAILED, VLC_SOURCE_KIND,
};
use crate::protocol::{
    contains_replay_item, contains_replay_source, find_replay_item_id, has_replay_item,
    has_replay_source, replay_item_id, ObsOperation, ObsReply, ObsRequest, Outcome,
};
use crate::settings::{initial_settings, is_replay_settings, replay_settings, VlcSettings};

verus! {

/// The reply an operation waits for.
#[derive(Debug, PartialEq, Eq)]
pub enum Stage {
    /// The version of OBS, to report it.
    Version,
    /// The list of VLC inputs, to report whether the replay source exists.
    VlcInputsToReport,
    /// The list of VLC inputs, to create the replay source unless it exists.
    VlcInputsToInit,
    /// The current scene, to create the replay source in it.
    SceneToCreate,
    /// The result of creating the replay source.
    Created,
    /// The current scene, to give the replay source `settings`.
    SceneToPlay { settings: VlcSettings },
    /// The result of setting the play-list, then list the items of `scene`.
    PlaylistSet { scene: u128 },
    /// The items of `scene`, to show the replay source's item.
    ItemsToEnable { scene: u128 },
    /// The result of showing the replay source.
    Enabled,
    /// The current scene, where the replay source is to be hidden.
    SceneToStop,
    /// The current scene again, to look up the replay source's item; `scene` is the first answer.
    SceneToFindItem { scene: u128 },
    /// The items of the current scene, to hide the replay source's item in `scene`.
    ItemsToDisable { scene: u128 },
    /// The result of hiding the replay source.
    Disabled,
    /// The result of subscribing to events.
    Subscription,
    /// Whether the replay buffer runs.
    BufferStatus,
    /// The result of starting the replay buffer.
    BufferStarted,
    /// The result of saving the replay buffer.
    BufferSaved,
}

/// An operation in progress. With `login` set, the operation is the login sequence:
/// replay buffer, then replay source, then events.
#[derive(Debug, PartialEq, Eq)]
pub struct ObsTask {
    pub stage: Stage,
    pub login: bool,
}

/// What the program does next.
#[derive(Debug, PartialEq, Eq)]
pub enum Step {
    /// Perform `request`, then resume `then` with its reply.
    Send { request: ObsRequest, then: ObsTask },
    /// The operation is over, with this result.
    Finish(Result<Outcome, String>),
}

/// The parts of the login sequence.
#[derive(Debug, PartialEq, Eq, Clone, Copy, Structural)]
pub enum Phase {
    ReplayBuffer,
    VlcSource,
    Final,
}

pub open spec fn task(stage: Stage, login: bool) -> ObsTask {
    ObsTask { stage, login }
}

/// The operation ends with an error whose text is `message`.
pub open spec fn fails_with(step: Step, message: Seq<char>) -> bool {
    step matches Step::Finish(Err(e)) && e@ == message
}

/// The next request is `request`, and `then` waits for its reply.
pub open spec fn sends(step: Step, request: ObsRequest, then: ObsTask) -> bool {
    step == Step::Send { request, then }
}

/// The next request lists the VLC inputs.
pub open spec fn lists_vlc_inputs(step: Step, then: ObsTask) -> bool {
    step matches Step::Send { request: ObsRequest::ListInputs { kind }, then: t } && kind@
        == VLC_SOURCE_KIND@ && t == then
}

/// The next request creates the replay source, hidden and with an empty play-list, in `scene`.
pub open spec fn creates_replay_source(step: Step, scene: u128, then: ObsTask) -> bool {
    step matches Step::Send {
        request: ObsRequest::CreateInput { scene: s, input, kind, settings, item_enabled },
        then: t,
    } && s == scene && input@ == REPLAY_SOURCE_NAME@ && kind@ == VLC_SOURCE_KIND@
        && is_replay_settings(settings, Seq::empty()) && item_enabled == Some(false) && t == then
}

/// The next request lays `settings` over those of the replay source.
pub open spec fn sets_replay_settings(step: Step, settings: VlcSettings, then: ObsTask) -> bool {
    step matches Step::Send {
        request: ObsRequest::SetInputSettings { input, settings: s, overlay },
        then: t,
    } && input@ == REPLAY_SOURCE_NAME@ && s == settings && overlay == Some(true) && t == then
}

/// What follows the successful end of `phase`: alone, the operation finishes with
/// `outcome`; in the login sequence, the next part starts.
pub open spec fn succeeds(phase: Phase, login: bool, outcome: Outcome, step: Step) -> bool {
    if login && phase == Phase::ReplayBuffer {
        lists_vlc_inputs(step, task(Stage::VlcInputsToInit, true))
    } else if login && phase == Phase::VlcSource {
        sends(step, ObsRequest::SubscribeEvents, task(Stage::Subscription, true))
    } else {
        step == Step::Finish(Ok(outcome))
    }
}

/// The first step of `op`, when the client is `connected` or not.
pub open spec fn starts_to(op: ObsOperation, connected: bool, step: Step) -> bool {
    if !connected {
        fails_with(step, NOT_CONNECTED@)
    } else {
        match op {
            ObsOperation::GetVersion => sends(step, ObsRequest::GetVersion, task(Stage::Version, false)),
            ObsOperation::IsExistVlcSource => lists_vlc_inputs(
                step,
                task(Stage::VlcInputsToReport, false),
            ),
            ObsOperation::InitVlcSource => lists_vlc_inputs(step, task(Stage::VlcInputsToInit, false)),
            ObsOperation::PlayVlcSource { movie_paths } => step matches Step::Send {
                request: ObsRequest::GetCurrentProgramScene,
                then: ObsTask { stage: Stage::SceneToPlay { settings }, login: false },
            } && is_replay_settings(settings, movie_paths@),
            ObsOperation::OnPlaybackEnded { input_name } => if input_name@ == REPLAY_SOURCE_NAME@ {
                sends(step, ObsRequest::GetCurrentProgramScene, task(Stage::SceneToStop, false))
            } else {
                step == Step::Finish(Ok(Outcome::Nothing))
            },
            ObsOperation::GenerateEventListener => sends(
                step,
                ObsRequest::SubscribeEvents,
                task(Stage::Subscription, false),
            ),
            ObsOperation::SetReplayBuffer => sends(
                step,
                ObsRequest::ReplayBufferStatus,
                task(Stage::BufferStatus, false),
            ),
            ObsOperation::CaptureReplayBuffer => sends(
                step,
                ObsRequest::SaveReplayBuffer,
                task(Stage::BufferSaved, false),
            ),
            ObsOperation::LoginInit => sends(
                step,
                ObsRequest::ReplayBufferStatus,
                task(Stage::BufferStatus, true),
            ),
        }
    }
}

/// `reply` is of the kind that `t` waits for; where the operation looks up the
/// replay source's scene item, the items hold it.
pub open spec fn reply_fits(t: ObsTask, reply: ObsReply) -> bool {
    ||| reply is Failed
    ||| match t.stage {
        Stage::Version => reply is Version,
        Stage::VlcInputsToReport | Stage::VlcInputsToInit => reply is Inputs,
        Stage::SceneToCreate | Stage::SceneToPlay { .. } | Stage::SceneToStop
        | Stage::SceneToFindItem { .. } => reply is Scene,
        Stage::ItemsToEnable { .. } | Stage::ItemsToDisable { .. } => reply matches ObsReply::SceneItems(
            items,
        ) && has_replay_item(items@),
        Stage::BufferStatus => reply is Active,
        Stage::Created | Stage::PlaylistSet { .. } | Stage::Enabled | Stage::Disabled
        | Stage::Subscription | Stage::BufferStarted | Stage::BufferSaved => reply is Done,
    }
}

/// The step that follows when `t` gets `reply`.
pub open spec fn resumes_to(t: ObsTask, reply: ObsReply, step: Step) -> bool {
    let login = t.login;
    match t.stage {
        Stage::Version => match reply {
            ObsReply::Version(v) => step == Step::Finish(Ok(Outcome::Version(v))),
            _ => fails_with(step, VERSION_FAILED@),
        },
        Stage::VlcInputsToReport => match reply {
            ObsReply::Inputs(names) => step == Step::Finish(
                Ok(Outcome::Present(has_replay_source(names@))),
            ),
            _ => fails_with(step, INPUTS_FAILED@),
        },
        Stage::VlcInputsToInit => match reply {
            ObsReply::Inputs(names) => if has_replay_source(names@) {
                succeeds(Phase::VlcSource, login, Outcome::Nothing, step)
            } else {
                sends(step, ObsRequest::GetCurrentProgramScene, task(Stage::SceneToCreate, login))
            },
            _ => fails_with(step, INPUTS_FAILED@),
        },
        Stage::SceneToCreate => match reply {
            ObsReply::Scene(scene) => creates_replay_source(step, scene, task(Stage::Created, login)),
            _ => fails_with(step, SCENE_FAILED@),
        },
        Stage::Created => succeeds(Phase::VlcSource, login, Outcome::Nothing, step),
        Stage::SceneToPlay { settings } => match reply {
            ObsReply::Scene(scene) => sets_replay_settings(
                step,
                settings,
                task(Stage::PlaylistSet { scene }, login),
            ),
            _ => fails_with(step, SCENE_FAILED@),
        },
        Stage::PlaylistSet { scene } => match reply {
            ObsReply::Failed(e) => fails_with(step, PLAYLIST_FAILED@ + e@),
            _ => sends(
                step,
                ObsRequest::ListSceneItems { scene },
                task(Stage::ItemsToEnable { scene }, login),
            ),
        },
        Stage::ItemsToEnable { scene } => match reply {
            ObsReply::SceneItems(items) => sends(
                step,
                ObsRequest::SetSceneItemEnabled {
                    scene,
                    item_id: replay_item_id(items@),
                    enabled: true,
                },
                task(Stage::Enabled, login),
            ),
            _ => fails_with(step, SCENE_ITEMS_FAILED@),
        },
        Stage::Enabled => match reply {
            ObsReply::Failed(e) => fails_with(step, ENABLE_FAILED@ + e@),
            _ => step == Step::Finish(Ok(Outcome::Nothing)),
        },
        Stage::SceneToStop => match reply {
            ObsReply::Scene(scene) => sends(
                step,
                ObsRequest::GetCurrentProgramScene,
                task(Stage::SceneToFindItem { scene }, login),
            ),
            _ => fails_with(step, SCENE_FAILED@),
        },
        Stage::SceneToFindItem { scene } => match reply {
            ObsReply::Scene(current) => sends(
                step,
                ObsRequest::ListSceneItems { scene: current },
                task(Stage::ItemsToDisable { scene }, login),
            ),
            _ => fails_with(step, SCENE_FAILED@),
        },
        Stage::ItemsToDisable { scene } => match reply {
            ObsReply::SceneItems(items) => sends(
                step,
                ObsRequest::SetSceneItemEnabled {
                    scene,
                    item_id: replay_item_id(items@),
                    enabled: false,
                },
                task(Stage::Disabled, login),
            ),
            _ => fails_with(step, SCENE_ITEMS_FAILED@),
        },
        Stage::Disabled => match reply {
            ObsReply::Failed(e) => fails_with(step, DISABLE_FAILED@ + e@),
            _ => step == Step::Finish(Ok(Outcome::Nothing)),
        },
        Stage::Subscription => match reply {
            ObsReply::Failed(_) => fails_with(step, EVENTS_FAILED@),
            _ => step == Step::Finish(Ok(Outcome::Nothing)),
        },
        Stage::BufferStatus => match reply {
            ObsReply::Active(true) => succeeds(Phase::ReplayBuffer, login, Outcome::Nothing, step),
            ObsReply::Active(false) => sends(
                step,
                ObsRequest::StartReplayBuffer,
                task(Stage::BufferStarted, login),
            ),
            _ => fails_with(step, BUFFER_STATE_FAILED@),
        },
        Stage::BufferStarted => match reply {
            ObsReply::Failed(_) => fails_with(step, BUFFER_START_FAILED@),
            _ => succeeds(Phase::ReplayBuffer, login, Outcome::Nothing, step),
        },
        Stage::BufferSaved => match reply {
            ObsReply::Failed(_) => fails_with(step, BUFFER_SAVE_FAILED@),
            _ => step == Step::Finish(Ok(Outcome::Nothing)),
        },
    }
}

fn fail(message: &str) -> (step: Step)
    ensures
        fails_with(step, message@),
{
    Step::Finish(Err(owned(message)))
}

fn fail_with_detail(prefix: &str, detail: &String) -> (step: Step)
    ensures
        fails_with(step, prefix@ + detail@),
{
    Step::Finish(Err(prefixed(prefix, detail)))
}

fn list_vlc_inputs(then: ObsTask) -> (step: Step)
    ensures
        lists_vlc_inputs(step, then),
{
    Step::Send { request: ObsRequest::ListInputs { kind: owned(VLC_SOURCE_KIND) }, then }
}

fn succeed(phase: Phase, login: bool, outcome: Outcome) -> (step: Step)
    ensures
        succeeds(phase, login, outcome, step),
{
    match phase {
        Phase::ReplayBuffer if login => list_vlc_inputs(ObsTask { stage: Stage::VlcInputsToInit, login: true }),
        Phase::VlcSource if login => Step::Send {
            request: ObsRequest::SubscribeEvents,
            then: ObsTask { stage: Stage::Subscription, login: true },
        },
        _ => Step::Finish(Ok(outcome)),
    }
}

/// The first step of `op`; `connected` tells whether the program holds a client.
pub fn start(op: ObsOperation, connected: bool) -> (step: Step)
    ensures
        starts_to(op, connected, step),
{
    if !connected {
        return fail(NOT_CONNECTED);
    }
    match op {
        ObsOperation::GetVersion => Step::Send {
            request: ObsRequest::GetVersion,
            then: ObsTask { stage: Stage::Version, login: false },
        },
        ObsOperation::IsExistVlcSource => list_vlc_inputs(
            ObsTask { stage: Stage::VlcInputsToReport, login: false },
        ),
        ObsOperation::InitVlcSource => list_vlc_inputs(
            ObsTask { stage: Stage::VlcInputsToInit, login: false },
        ),
        ObsOperation::PlayVlcSource { movie_paths } => Step::Send {
            request: ObsRequest::GetCurrentProgramScene,
            then: ObsTask {
                stage: Stage::SceneToPlay { settings: replay_settings(&movie_paths) },
                login: false,
            },
        },
        ObsOperation::OnPlaybackEnded { input_name } => {
            if input_name == owned(REPLAY_SOURCE_NAME) {
                Step::Send {
                    request: ObsRequest::GetCurrentProgramScene,
                    then: ObsTask { stage: Stage::SceneToStop, login: false },
                }
            } else {
                Step::Finish(Ok(Outcome::Nothing))
            }
        },
        ObsOperation::GenerateEventListener => Step::Send {
            request: ObsRequest::SubscribeEvents,
            then: ObsTask { stage: Stage::Subscription, login: false },
        },
        ObsOperation::SetReplayBuffer => Step::Send {
            request: ObsRequest::ReplayBufferStatus,
            then: ObsTask { stage: Stage::BufferStatus, login: false },
        },
        ObsOperation::CaptureReplayBuffer => Step::Send {
            request: ObsRequest::SaveReplayBuffer,
            then: ObsTask { stage: Stage::BufferSaved, login: false },
        },
        ObsOperation::LoginInit => Step::Send {
            request: ObsRequest::ReplayBufferStatus,
            then: ObsTask { stage: Stage::BufferStatus, login: true },
        },
    }
}

impl ObsTask {
    /// Whether the operation in progress can take `reply` (see `reply_fits`).
    pub fn accepts(&self, reply: &ObsReply) -> (res: bool)
        ensures
            res == reply_fits(*self, *reply),
    {
        if let ObsReply::Failed(_) = reply {
            return true;
        }
        match &self.stage {
            Stage::Version => matches!(reply, ObsReply::Version(_)),
            Stage::VlcInputsToReport | Stage::VlcInputsToInit => matches!(reply, ObsReply::Inputs(_)),
            Stage::SceneToCreate | Stage::SceneToPlay { .. } | Stage::SceneToStop
            | Stage::SceneToFindItem { .. } => matches!(reply, ObsReply::Scene(_)),
            Stage::ItemsToEnable { .. } | Stage::ItemsToDisable { .. } => match reply {
                ObsReply::SceneItems(items) => contains_replay_item(items),
                _ => false,
            },
            Stage::BufferStatus => matches!(reply, ObsReply::Active(_)),
            Stage::Created | Stage::PlaylistSet { .. } | Stage::Enabled | Stage::Disabled
            | Stage::Subscription | Stage::BufferStarted | Stage::BufferSaved => matches!(reply, ObsReply::Done),
        }
    }

    /// The step that follows when the operation in progress gets `reply`.
    pub fn resume(self, reply: ObsReply) -> (step: Step)
        requires
            reply_fits(self, reply),
        ensures
            resumes_to(self, reply, step),
    {
        let login = self.login;
        match self.stage {
            Stage::Version => match reply {
                ObsReply::Version(v) => Step::Finish(Ok(Outcome::Version(v))),
                _ => fail(VERSION_FAILED),
            },
            Stage::VlcInputsToReport => match reply {
                ObsReply::Inputs(names) => Step::Finish(
                    Ok(Outcome::Present(contains_replay_source(&names))),
                ),
                _ => fail(INPUTS_FAILED),
            },
            Stage::VlcInputsToInit => match reply {
                ObsReply::Inputs(names) => {
                    if contains_replay_source(&names) {
                        succeed(Phase::VlcSource, login, Outcome::Nothing)
                    } else {
                        Step::Send {
                            request: ObsRequest::GetCurrentProgramScene,
                            then: ObsTask { stage: Stage::SceneToCreate, login },
                        }
                    }
                },
                _ => fail(INPUTS_FAILED),
            },
            Stage::SceneToCreate => match reply {
                ObsReply::Scene(scene) => Step::Send {
                    request: ObsRequest::CreateInput {
                        scene,
                        input: owned(REPLAY_SOURCE_NAME),
                        kind: owned(VLC_SOURCE_KIND),
                        settings: initial_settings(),
                        item_enabled: Some(false),
                    },
                    then: ObsTask { stage: Stage::Created, login },
                },
                _ => fail(SCENE_FAILED),
            },
            Stage::Created => succeed(Phase::VlcSource, login, Outcome::Nothing),
            Stage::SceneToPlay { settings } => match reply {
                ObsReply::Scene(scene) => Step::Send {
                    request: ObsRequest::SetInputSettings {
                        input: owned(REPLAY_SOURCE_NAME),
                        settings,
                        overlay: Some(true),
                    },
                    then: ObsTask { stage: Stage::PlaylistSet { scene }, login },
                },
                _ => fail(SCENE_FAILED),
            },
            Stage::PlaylistSet { scene } => match reply {
                ObsReply::Failed(e) => fail_with_detail(PLAYLIST_FAILED, &e),
                _ => Step::Send {
                    request: ObsRequest::ListSceneItems { scene },
                    then: ObsTask { stage: Stage::ItemsToEnable { scene }, login },
                },
            },
            Stage::ItemsToEnable { scene } => match reply {
                ObsReply::SceneItems(items) => Step::Send {
                    request: ObsRequest::SetSceneItemEnabled {
                        scene,
                        item_id: find_replay_item_id(&items),
                        enabled: true,
                    },
                    then: ObsTask { stage: Stage::Enabled, login },
                },
                _ => fail(SCENE_ITEMS_FAILED),
            },
            Stage::Enabled => match reply {
                ObsReply::Failed(e) => fail_with_detail(ENABLE_FAILED, &e),
                _ => Step::Finish(Ok(Outcome::Nothing)),
            },
            Stage::SceneToStop => match reply {
                ObsReply::Scene(scene) => Step::Send {
                    request: ObsRequest::GetCurrentProgramScene,
                    then: ObsTask { stage: Stage::SceneToFindItem { scene }, login },
                },
                _ => fail(SCENE_FAILED),
            },
            Stage::SceneToFindItem { scene } => match reply {
                ObsReply::Scene(current) => Step::Send {
                    request: ObsRequest::ListSceneItems { scene: current },
                    then: ObsTask { stage: Stage::ItemsToDisable { scene }, login },
                },
                _ => fail(SCENE_FAILED),
            },
            Stage::ItemsToDisable { scene } => match reply {
                ObsReply::SceneItems(items) => Step::Send {
                    request: ObsRequest::SetSceneItemEnabled {
                        scene,
                        item_id: find_replay_item_id(&items),
                        enabled: false,
                    },
                    then: ObsTask { stage: Stage::Disabled, login },
                },
                _ => fail(SCENE_ITEMS_FAILED),
            },
            Stage::Disabled => match reply {
                ObsReply::Failed(e) => fail_with_detail(DISABLE_FAILED, &e),
                _ => Step::Finish(Ok(Outcome::Nothing)),
            },
            Stage::Subscription => match reply {
                ObsReply::Failed(_) => fail(EVENTS_FAILED),
                _ => Step::Finish(Ok(Outcome::Nothing)),
            },
            Stage::BufferStatus => match reply {
                ObsReply::Active(true) => succeed(Phase::ReplayBuffer, login, Outcome::Nothing),
                ObsReply::Active(false) => Step::Send {
                    request: ObsRequest::StartReplayBuffer,
                    then: ObsTask { stage: Stage::BufferStarted, login },
                },
                _ => fail(BUFFER_STATE_FAILED),
            },
            Stage::BufferStarted => match reply {
                ObsReply::Failed(_) => fail(BUFFER_START_FAILED),
                _ => succeed(Phase::ReplayBuffer, login, Outcome::Nothing),
            },
            Stage::BufferSaved => match reply {
                ObsReply::Failed(_) => fail(BUFFER_SAVE_FAILED),
                _ => Step::Finish(Ok(Outcome::Nothing)),
            },
        }
    }
}

} // verus!
