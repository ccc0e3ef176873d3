//! Whole runs of the OBS operations when OBS accepts every request, and the
//! error each failed request ends its operation with.
use vstd::prelude::*;
use crate::laws::{first_replay_id, is_run, lemma_replay_item_id_is_first, runs_step};
use crate::names::{
    BUFFER_SAVE_FAILED, BUFFER_START_FAILED, BUFFER_STATE_FAILED, DISABLE_FAILED, ENABLE_FAILED,
    EVENTS_FAILED, INPUTS_FAILED, PLAYLIST_FAILED, REPLAY_SOURCE_NAME, SCENE_FAILED,
    SCENE_ITEMS_FAILED, VERSION_FAILED, VLC_SOURCE_KIND,
};
use crate::protocol::{ObsOperation, ObsReply, ObsRequest, Outcome};
use crate::settings::{is_replay_settings, PlaybackBehavior, VlcSettings};
use crate::task::{fails_with, resumes_to, starts_to, task, ObsTask, Stage, Step};

verus! {

/// No reply of the run is a failure.
pub open spec fn all_accepted(replies: Seq<ObsReply>) -> bool {
    forall|i: int| 0 <= i < replies.len() ==> !((#[trigger] replies[i]) is Failed)
}

/// `settings` play `paths`, in order, each visible and unselected, without loop
/// or shuffle, stopping when hidden and restarting when shown, with 100 ms of
/// network caching, audio track 1 and no subtitles.
pub open spec fn plays_in_order(settings: VlcSettings, paths: Seq<String>) -> bool {
    &&& settings.playlist@.len() == paths.len()
    &&& forall|i: int|
        0 <= i < paths.len() ==> (#[trigger] settings.playlist@[i]).path@ == paths[i]@
            && !settings.playlist@[i].hidden && !settings.playlist@[i].selected
    &&& !settings.loop_playlist
    &&& !settings.shuffle
    &&& settings.playback_behavior == PlaybackBehavior::StopRestart
    &&& settings.network_caching_ms == 100
    &&& settings.track == 1
    &&& !settings.subtitle_enable
    &&& settings.subtitle == 0
}

/// The replay settings for `paths` are exactly the fixed ones with a play-list of `paths`.
pub proof fn law_replay_settings_are_fixed(settings: VlcSettings, paths: Seq<String>)
    requires
        is_replay_settings(settings, paths),
    ensures
        plays_in_order(settings, paths),
{
    assert forall|i: int| 0 <= i < paths.len() implies (#[trigger] settings.playlist@[i]).path@
        == paths[i]@ && !settings.playlist@[i].hidden && !settings.playlist@[i].selected by {
    }
}

/// The error each failed request ends its operation with: a fixed text, with the
/// failure's own text appended where the operation reports it. A failed creation
/// of the replay source is ignored.
pub proof fn law_failure_messages(t: ObsTask, detail: String, step: Step)
    requires
        resumes_to(t, ObsReply::Failed(detail), step),
    ensures
        t.stage == Stage::Version ==> fails_with(step, VERSION_FAILED@),
        t.stage == Stage::VlcInputsToReport || t.stage == Stage::VlcInputsToInit ==> fails_with(
            step,
            INPUTS_FAILED@,
        ),
        t.stage == Stage::SceneToCreate || t.stage is SceneToPlay || t.stage == Stage::SceneToStop
            || t.stage is SceneToFindItem ==> fails_with(step, SCENE_FAILED@),
        t.stage is PlaylistSet ==> fails_with(step, PLAYLIST_FAILED@ + detail@),
        t.stage is ItemsToEnable || t.stage is ItemsToDisable ==> fails_with(step, SCENE_ITEMS_FAILED@),
        t.stage == Stage::Enabled ==> fails_with(step, ENABLE_FAILED@ + detail@),
        t.stage == Stage::Disabled ==> fails_with(step, DISABLE_FAILED@ + detail@),
        t.stage == Stage::Subscription ==> fails_with(step, EVENTS_FAILED@),
        t.stage == Stage::BufferStatus ==> fails_with(step, BUFFER_STATE_FAILED@),
        t.stage == Stage::BufferStarted ==> fails_with(step, BUFFER_START_FAILED@),
        t.stage == Stage::BufferSaved ==> fails_with(step, BUFFER_SAVE_FAILED@),
        t.stage == Stage::Created && !t.login ==> step == Step::Finish(Ok(Outcome::Nothing)),
        t.stage == Stage::Created && t.login ==> step == (Step::Send {
            request: ObsRequest::SubscribeEvents,
            then: task(Stage::Subscription, true),
        }),
{
}

/// Reading the version sends the version query once and answers the version OBS reports.
pub proof fn law_version_run(
    steps: Seq<Step>,
    replies: Seq<ObsReply>,
    sent: Seq<ObsRequest>,
    result: Result<Outcome, String>,
    version: String,
)
    requires
        is_run(steps, replies, sent, result),
        starts_to(ObsOperation::GetVersion, true, steps[0]),
        replies.len() > 0 && replies[0] == ObsReply::Version(version),
    ensures
        sent == seq![ObsRequest::GetVersion],
        result == Ok::<Outcome, String>(Outcome::Version(version)),
{
    assert(runs_step(steps[0], replies[0], sent[0], steps[1]));
    if replies.len() > 1 {
        assert(runs_step(steps[1], replies[1], sent[1], steps[2]));
    }
    assert(sent =~= seq![ObsRequest::GetVersion]);
}

/// Subscribing to events sends one subscription request and succeeds exactly
/// when OBS accepts it.
pub proof fn law_event_listener_run(
    steps: Seq<Step>,
    replies: Seq<ObsReply>,
    sent: Seq<ObsRequest>,
    result: Result<Outcome, String>,
)
    requires
        is_run(steps, replies, sent, result),
        starts_to(ObsOperation::GenerateEventListener, true, steps[0]),
    ensures
        sent == seq![ObsRequest::SubscribeEvents],
        result is Ok <==> replies[0] == ObsReply::Done,
        result is Ok ==> result == Ok::<Outcome, String>(Outcome::Nothing),
{
    assert(runs_step(steps[0], replies[0], sent[0], steps[1]));
    if replies.len() > 1 {
        assert(runs_step(steps[1], replies[1], sent[1], steps[2]));
    }
    assert(sent =~= seq![ObsRequest::SubscribeEvents]);
}

/// What the set-up of the replay source sends from `sent[a]` on, when OBS accepts
/// every request: it lists the VLC inputs; exactly when none is the replay source
/// it reads the current scene and creates the replay source there, hidden, with an
/// empty play-list; in the login it subscribes to events last.
pub open spec fn init_part_sends(replies: Seq<ObsReply>, sent: Seq<ObsRequest>, a: int, login: bool) -> bool {
    &&& (replies[a] is Inputs)
    &&& (sent[a] matches ObsRequest::ListInputs { kind } && kind@ == VLC_SOURCE_KIND@)
    &&& ((exists|i: int|
            0 <= i < replies[a]->Inputs_0@.len() && (#[trigger] replies[a]->Inputs_0@[i])@
                == REPLAY_SOURCE_NAME@) ==> {
            &&& login ==> sent.len() == a + 2 && sent[a + 1] == ObsRequest::SubscribeEvents
            &&& !login ==> sent.len() == a + 1
        })
    &&& ((forall|i: int|
            0 <= i < replies[a]->Inputs_0@.len() ==> (#[trigger] replies[a]->Inputs_0@[i])@
                != REPLAY_SOURCE_NAME@) ==> {
            &&& sent[a + 1] == ObsRequest::GetCurrentProgramScene
            &&& replies[a + 1] is Scene
            &&& sent[a + 2] matches ObsRequest::CreateInput {
                scene,
                input,
                kind,
                settings,
                item_enabled,
            } && scene == replies[a + 1]->Scene_0 && input@ == REPLAY_SOURCE_NAME@ && kind@
                == VLC_SOURCE_KIND@ && plays_in_order(settings, Seq::empty()) && item_enabled
                == Some(false)
            &&& login ==> sent.len() == a + 4 && sent[a + 3] == ObsRequest::SubscribeEvents
            &&& !login ==> sent.len() == a + 3
        })
}

proof fn lemma_init_part(
    steps: Seq<Step>,
    replies: Seq<ObsReply>,
    sent: Seq<ObsRequest>,
    result: Result<Outcome, String>,
    a: int,
    login: bool,
)
    requires
        is_run(steps, replies, sent, result),
        all_accepted(replies),
        0 <= a < replies.len(),
        steps[a] matches Step::Send { request: ObsRequest::ListInputs { kind }, then } && kind@
            == VLC_SOURCE_KIND@ && then == task(Stage::VlcInputsToInit, login),
    ensures
        init_part_sends(replies, sent, a, login),
        result == Ok::<Outcome, String>(Outcome::Nothing),
{
    let n = replies.len() as int;
    assert(!(replies[a] is Failed));
    assert(runs_step(steps[a], replies[a], sent[a], steps[a + 1]));
    if a + 1 < n {
        assert(!(replies[a + 1] is Failed));
        assert(runs_step(steps[a + 1], replies[a + 1], sent[a + 1], steps[a + 2]));
    }
    if a + 2 < n {
        assert(!(replies[a + 2] is Failed));
        assert(runs_step(steps[a + 2], replies[a + 2], sent[a + 2], steps[a + 3]));
        if let Step::Send { request: ObsRequest::CreateInput { settings, .. }, .. } = steps[a + 2] {
            law_replay_settings_are_fixed(settings, Seq::empty());
        }
    }
    if a + 3 < n {
        assert(!(replies[a + 3] is Failed));
        assert(runs_step(steps[a + 3], replies[a + 3], sent[a + 3], steps[a + 4]));
    }
    if a + 4 < n {
        assert(runs_step(steps[a + 4], replies[a + 4], sent[a + 4], steps[a + 5]));
    }
}

/// Setting up the replay source on a connected client, when OBS accepts every
/// request: the VLC inputs are listed, and the replay source is created hidden in
/// the reported current scene exactly when no listed input is the replay source.
pub proof fn law_init_run(
    steps: Seq<Step>,
    replies: Seq<ObsReply>,
    sent: Seq<ObsRequest>,
    result: Result<Outcome, String>,
)
    requires
        is_run(steps, replies, sent, result),
        starts_to(ObsOperation::InitVlcSource, true, steps[0]),
        all_accepted(replies),
    ensures
        (replies[0] is Inputs),
        sent[0] matches ObsRequest::ListInputs { kind } && kind@ == VLC_SOURCE_KIND@,
        (exists|i: int|
            0 <= i < replies[0]->Inputs_0@.len() && (#[trigger] replies[0]->Inputs_0@[i])@
                == REPLAY_SOURCE_NAME@) ==> sent.len() == 1,
        (forall|i: int|
            0 <= i < replies[0]->Inputs_0@.len() ==> (#[trigger] replies[0]->Inputs_0@[i])@
                != REPLAY_SOURCE_NAME@) ==> {
            &&& sent.len() == 3
            &&& sent[1] == ObsRequest::GetCurrentProgramScene
            &&& sent[2] matches ObsRequest::CreateInput {
                scene,
                input,
                kind,
                settings,
                item_enabled,
            } && scene == replies[1]->Scene_0 && input@ == REPLAY_SOURCE_NAME@ && kind@
                == VLC_SOURCE_KIND@ && plays_in_order(settings, Seq::empty()) && item_enabled
                == Some(false)
        },
        result == Ok::<Outcome, String>(Outcome::Nothing),
{
    assert(replies.len() > 0);
    lemma_init_part(steps, replies, sent, result, 0, false);
}

/// A login on a connected client, when OBS accepts every request: it asks whether
/// the replay buffer runs and starts it only when it does not; it then lists the
/// VLC inputs, creates the replay source in the reported current scene exactly
/// when no listed input is the replay source, and subscribes to events last.
pub proof fn law_login_run(
    steps: Seq<Step>,
    replies: Seq<ObsReply>,
    sent: Seq<ObsRequest>,
    result: Result<Outcome, String>,
)
    requires
        is_run(steps, replies, sent, result),
        starts_to(ObsOperation::LoginInit, true, steps[0]),
        all_accepted(replies),
    ensures
        sent[0] == ObsRequest::ReplayBufferStatus,
        replies[0] == ObsReply::Active(true) ==> init_part_sends(replies, sent, 1, true),
        replies[0] == ObsReply::Active(false) ==> sent[1] == ObsRequest::StartReplayBuffer
            && init_part_sends(replies, sent, 2, true),
        (replies[0] is Active),
        result == Ok::<Outcome, String>(Outcome::Nothing),
{
    let n = replies.len() as int;
    assert(n > 0);
    assert(!(replies[0] is Failed));
    assert(runs_step(steps[0], replies[0], sent[0], steps[1]));
    if replies[0] == ObsReply::Active(true) {
        lemma_init_part(steps, replies, sent, result, 1, true);
    } else {
        assert(n > 1);
        assert(!(replies[1] is Failed));
        assert(runs_step(steps[1], replies[1], sent[1], steps[2]));
        lemma_init_part(steps, replies, sent, result, 2, true);
    }
}

/// Playing replays on a connected client, when OBS accepts every request: it reads
/// the current scene, gives the replay source the requested play-list, lists the
/// items of that scene, and shows there the first listed item of the replay source.
pub proof fn law_play_run(
    movie_paths: Vec<String>,
    steps: Seq<Step>,
    replies: Seq<ObsReply>,
    sent: Seq<ObsRequest>,
    result: Result<Outcome, String>,
)
    requires
        is_run(steps, replies, sent, result),
        starts_to(ObsOperation::PlayVlcSource { movie_paths }, true, steps[0]),
        all_accepted(replies),
    ensures
        sent.len() == 4,
        sent[0] == ObsRequest::GetCurrentProgramScene,
        (replies[0] is Scene),
        sent[1] matches ObsRequest::SetInputSettings { input, settings, overlay } && input@
            == REPLAY_SOURCE_NAME@ && overlay == Some(true) && plays_in_order(settings, movie_paths@),
        sent[2] == (ObsRequest::ListSceneItems { scene: replies[0]->Scene_0 }),
        (sent[3] matches ObsRequest::SetSceneItemEnabled { scene, item_id, enabled } && scene
            == replies[0]->Scene_0 && enabled),
        (replies[2] is SceneItems),
        first_replay_id(replies[2]->SceneItems_0@, sent[3]->SetSceneItemEnabled_item_id),
        result == Ok::<Outcome, String>(Outcome::Nothing),
{
    let n = replies.len() as int;
    assert(n > 0);
    assert(!(replies[0] is Failed));
    assert(runs_step(steps[0], replies[0], sent[0], steps[1]));
    if let Step::Send { then: ObsTask { stage: Stage::SceneToPlay { settings }, .. }, .. } = steps[0] {
        law_replay_settings_are_fixed(settings, movie_paths@);
    }
    assert(n > 1);
    assert(!(replies[1] is Failed));
    assert(runs_step(steps[1], replies[1], sent[1], steps[2]));
    assert(n > 2);
    assert(!(replies[2] is Failed));
    assert(runs_step(steps[2], replies[2], sent[2], steps[3]));
    lemma_replay_item_id_is_first(replies[2]->SceneItems_0@);
    assert(n > 3);
    assert(!(replies[3] is Failed));
    assert(runs_step(steps[3], replies[3], sent[3], steps[4]));
    if n > 4 {
        assert(runs_step(steps[4], replies[4], sent[4], steps[5]));
    }
}

/// Ending the replay's playback on a connected client, when OBS accepts every
/// request: it reads the current scene twice, lists the items of the second
/// answer, and hides the first listed item of the replay source in the first one.
pub proof fn law_playback_end_run(
    input_name: String,
    steps: Seq<Step>,
    replies: Seq<ObsReply>,
    sent: Seq<ObsRequest>,
    result: Result<Outcome, String>,
)
    requires
        is_run(steps, replies, sent, result),
        input_name@ == REPLAY_SOURCE_NAME@,
        starts_to(ObsOperation::OnPlaybackEnded { input_name }, true, steps[0]),
        all_accepted(replies),
    ensures
        sent.len() == 4,
        sent[0] == ObsRequest::GetCurrentProgramScene,
        sent[1] == ObsRequest::GetCurrentProgramScene,
        (replies[0] is Scene && replies[1] is Scene),
        sent[2] == (ObsRequest::ListSceneItems { scene: replies[1]->Scene_0 }),
        (sent[3] matches ObsRequest::SetSceneItemEnabled { scene, item_id, enabled } && scene
            == replies[0]->Scene_0 && !enabled),
        (replies[2] is SceneItems),
        first_replay_id(replies[2]->SceneItems_0@, sent[3]->SetSceneItemEnabled_item_id),
        result == Ok::<Outcome, String>(Outcome::Nothing),
{
    let n = replies.len() as int;
    assert(n > 0);
    assert(!(replies[0] is Failed));
    assert(runs_step(steps[0], replies[0], sent[0], steps[1]));
    assert(n > 1);
    assert(!(replies[1] is Failed));
    assert(runs_step(steps[1], replies[1], sent[1], steps[2]));
    assert(n > 2);
    assert(!(replies[2] is Failed));
    assert(runs_step(steps[2], replies[2], sent[2], steps[3]));
    lemma_replay_item_id_is_first(replies[2]->SceneItems_0@);
    assert(n > 3);
    assert(!(replies[3] is Failed));
    assert(runs_step(steps[3], replies[3], sent[3], steps[4]));
    if n > 4 {
        assert(runs_step(steps[4], replies[4], sent[4], steps[5]));
    }
}

} // verus!
