//! Properties of the OBS operations that hold over all inputs.
use vstd::prelude::*;
use crate::connection::{client_after_attempt, client_after_attempts};
use crate::names::{NOT_CONNECTED, REPLAY_SOURCE_NAME, VERSION_FAILED, VLC_SOURCE_KIND};
use crate::protocol::{has_replay_source, is_first_replay_item, lemma_first_replay_item_exists, replay_item_id, SceneItemEntry, ObsOperation, ObsReply, ObsRequest, Outcome};
use crate::settings::is_replay_settings;
use crate::task::{fails_with, reply_fits, resumes_to, starts_to, task, ObsTask, Stage, Step};

verus! {

/// The most requests that `t` may still send before its operation finishes.
pub open spec fn pending_requests(t: ObsTask) -> nat {
    let own: nat = match t.stage {
        Stage::VlcInputsToInit => 2,
        Stage::SceneToCreate => 1,
        Stage::SceneToPlay { .. } => 3,
        Stage::PlaylistSet { .. } => 2,
        Stage::ItemsToEnable { .. } => 1,
        Stage::SceneToStop => 3,
        Stage::SceneToFindItem { .. } => 2,
        Stage::ItemsToDisable { .. } => 1,
        Stage::BufferStatus => 1,
        _ => 0,
    };
    let login_rest: nat = match t.stage {
        Stage::BufferStatus | Stage::BufferStarted => 4,
        Stage::VlcInputsToInit | Stage::SceneToCreate | Stage::Created => 1,
        _ => 0,
    };
    if t.login {
        own + login_rest
    } else {
        own
    }
}

/// Without a client, every operation ends at once with "Not connected to OBS"
/// and sends no request.
pub proof fn law_not_connected_sends_nothing(op: ObsOperation, step: Step)
    requires
        starts_to(op, false, step),
    ensures
        fails_with(step, NOT_CONNECTED@),
        !(step is Send),
{
}

/// The first request of any operation leaves at most five more to send.
pub proof fn law_start_is_bounded(op: ObsOperation, connected: bool, step: Step)
    requires
        starts_to(op, connected, step),
    ensures
        step matches Step::Send { then, .. } ==> pending_requests(then) <= 5,
{
}

/// Each reply either ends the operation or lowers the number of requests it may
/// still send; so every operation ends after at most six requests.
pub proof fn law_resume_progresses(t: ObsTask, reply: ObsReply, step: Step)
    requires
        reply_fits(t, reply),
        resumes_to(t, reply, step),
    ensures
        step matches Step::Send { then, .. } ==> pending_requests(then) < pending_requests(t),
{
}

/// A failed request ends its operation with an error; the one exception is the
/// creation of the replay source, whose failure is ignored.
pub proof fn law_failure_ends_operation(t: ObsTask, detail: String, step: Step)
    requires
        resumes_to(t, ObsReply::Failed(detail), step),
    ensures
        t.stage != Stage::Created ==> step matches Step::Finish(Err(_)),
        t.stage == Stage::Created && !t.login ==> step == Step::Finish(Ok(Outcome::Nothing)),
{
}

/// When the replay buffer already runs, setting it up sends no start request
/// and succeeds.
pub proof fn law_running_buffer_is_left_alone(step: Step)
    requires
        resumes_to(task(Stage::BufferStatus, false), ObsReply::Active(true), step),
    ensures
        step == Step::Finish(Ok(Outcome::Nothing)),
{
}

/// When the replay source already exists, setting it up creates nothing and succeeds.
pub proof fn law_existing_source_is_kept(names: Vec<String>, step: Step)
    requires
        has_replay_source(names@),
        resumes_to(task(Stage::VlcInputsToInit, false), ObsReply::Inputs(names), step),
    ensures
        step == Step::Finish(Ok(Outcome::Nothing)),
{
}

/// The end of a playback other than the replay source's changes nothing in OBS.
pub proof fn law_other_playback_end_is_ignored(input_name: String, step: Step)
    requires
        input_name@ != REPLAY_SOURCE_NAME@,
        starts_to(ObsOperation::OnPlaybackEnded { input_name }, true, step),
    ensures
        step == Step::Finish(Ok(Outcome::Nothing)),
{
}

/// Playing a replay and its end address the same scene item: given the same
/// items, showing and hiding change the first item of the replay source.
pub proof fn law_show_and_hide_same_item(
    scene: u128,
    items: Vec<SceneItemEntry>,
    shown: Step,
    hidden: Step,
)
    requires
        resumes_to(task(Stage::ItemsToEnable { scene }, false), ObsReply::SceneItems(items), shown),
        resumes_to(task(Stage::ItemsToDisable { scene }, false), ObsReply::SceneItems(items), hidden),
    ensures
        shown matches Step::Send {
            request: ObsRequest::SetSceneItemEnabled { scene: s, item_id: i, enabled: true },
            ..
        } && s == scene && i == replay_item_id(items@),
        hidden matches Step::Send {
            request: ObsRequest::SetSceneItemEnabled { scene: s, item_id: i, enabled: false },
            ..
        } && s == scene && i == replay_item_id(items@),
{
}

/// Playing replays hands the replay source exactly the files asked for, in
/// order, each visible and unselected, with the fixed replay settings.
pub proof fn law_play_sets_requested_playlist(
    movie_paths: Vec<String>,
    scene: u128,
    first: Step,
    second: Step,
)
    requires
        starts_to(ObsOperation::PlayVlcSource { movie_paths }, true, first),
        first matches Step::Send { then, .. } && resumes_to(then, ObsReply::Scene(scene), second),
    ensures
        second matches Step::Send {
            request: ObsRequest::SetInputSettings { input, settings, overlay },
            ..
        } && input@ == REPLAY_SOURCE_NAME@ && overlay == Some(true) && is_replay_settings(
            settings,
            movie_paths@,
        ),
{
}

/// `steps[i]` sends `request` and its operation takes `reply` to go on with `next`.
pub open spec fn runs_step(step: Step, reply: ObsReply, request: ObsRequest, next: Step) -> bool {
    step matches Step::Send { request: r, then } && r == request && reply_fits(then, reply)
        && resumes_to(then, reply, next)
}

/// A run of an operation: `steps` are its steps from the first one on, `sent`
/// the requests it sends, `replies` their replies, and it ends with `result`.
pub open spec fn is_run(
    steps: Seq<Step>,
    replies: Seq<ObsReply>,
    sent: Seq<ObsRequest>,
    result: Result<Outcome, String>,
) -> bool {
    &&& steps.len() == replies.len() + 1
    &&& sent.len() == replies.len()
    &&& steps.last() == Step::Finish(result)
    &&& forall|i: int|
        0 <= i < replies.len() ==> runs_step(steps[i], #[trigger] replies[i], sent[i], steps[i + 1])
}

/// The most requests a run from `step` sends.
pub open spec fn step_budget(step: Step) -> nat {
    match step {
        Step::Send { then, .. } => pending_requests(then) + 1,
        Step::Finish(_) => 0,
    }
}

proof fn lemma_budget_covers_rest(
    steps: Seq<Step>,
    replies: Seq<ObsReply>,
    sent: Seq<ObsRequest>,
    result: Result<Outcome, String>,
    i: int,
)
    requires
        is_run(steps, replies, sent, result),
        0 <= i <= replies.len(),
    ensures
        step_budget(steps[i]) >= replies.len() - i,
    decreases replies.len() - i,
{
    if i < replies.len() {
        lemma_budget_covers_rest(steps, replies, sent, result, i + 1);
        assert(runs_step(steps[i], replies[i], sent[i], steps[i + 1]));
        law_resume_progresses(steps[i]->then, replies[i], steps[i + 1]);
    }
}

/// Every run of an operation, whatever OBS replies, ends after at most six requests.
pub proof fn law_operation_sends_at_most_six(
    op: ObsOperation,
    connected: bool,
    steps: Seq<Step>,
    replies: Seq<ObsReply>,
    sent: Seq<ObsRequest>,
    result: Result<Outcome, String>,
)
    requires
        is_run(steps, replies, sent, result),
        starts_to(op, connected, steps[0]),
    ensures
        sent.len() <= 6,
{
    law_start_is_bounded(op, connected, steps[0]);
    lemma_budget_covers_rest(steps, replies, sent, result, 0);
}

/// A property of steps that each step of a run passes on to the next holds at every step.
proof fn lemma_kept_along_run(
    steps: Seq<Step>,
    replies: Seq<ObsReply>,
    sent: Seq<ObsRequest>,
    result: Result<Outcome, String>,
    keep: spec_fn(Step) -> bool,
    i: int,
)
    requires
        is_run(steps, replies, sent, result),
        keep(steps[0]),
        forall|j: int| 0 <= j < replies.len() && #[trigger] keep(steps[j]) ==> keep(steps[j + 1]),
        0 <= i <= replies.len(),
    ensures
        keep(steps[i]),
    decreases i,
{
    if i > 0 {
        lemma_kept_along_run(steps, replies, sent, result, keep, i - 1);
    }
}

/// `t` is a part of the login sequence.
pub open spec fn in_login(t: ObsTask) -> bool {
    &&& t.login
    &&& {
        ||| t.stage == Stage::BufferStatus
        ||| t.stage == Stage::BufferStarted
        ||| t.stage == Stage::VlcInputsToInit
        ||| t.stage == Stage::SceneToCreate
        ||| t.stage == Stage::Created
        ||| t.stage == Stage::Subscription
    }
}

/// A step of the login sequence; subscribing to events is its last part.
pub open spec fn login_step(s: Step) -> bool {
    ||| s is Finish
    ||| s matches Step::Send { request, then } && in_login(then) && (then.stage
        == Stage::Subscription ==> request == ObsRequest::SubscribeEvents)
}

/// A login that succeeds first asks whether the replay buffer runs and ends by
/// subscribing to the events of OBS.
pub proof fn law_login_ends_subscribed(
    connected: bool,
    steps: Seq<Step>,
    replies: Seq<ObsReply>,
    sent: Seq<ObsRequest>,
    outcome: Outcome,
)
    requires
        is_run(steps, replies, sent, Ok(outcome)),
        starts_to(ObsOperation::LoginInit, connected, steps[0]),
    ensures
        sent.len() >= 2,
        sent[0] == ObsRequest::ReplayBufferStatus,
        sent.last() == ObsRequest::SubscribeEvents,
{
    let n = replies.len() as int;
    assert(n > 0);
    assert(runs_step(steps[0], replies[0], sent[0], steps[1]));
    let keep = |s: Step| login_step(s);
    assert forall|j: int| 0 <= j < n && #[trigger] keep(steps[j]) implies keep(steps[j + 1]) by {
        assert(runs_step(steps[j], replies[j], sent[j], steps[j + 1]));
    }
    lemma_kept_along_run(steps, replies, sent, Ok(outcome), keep, n - 1);
    assert(runs_step(steps[n - 1], replies[n - 1], sent[n - 1], steps[n]));
}

/// A step of playing replays; showing the replay source's item is its last part.
pub open spec fn play_step(s: Step) -> bool {
    ||| s is Finish
    ||| s matches Step::Send { request, then } && !then.login && (then.stage is SceneToPlay
        || then.stage is PlaylistSet || then.stage is ItemsToEnable || then.stage
        == Stage::Enabled) && (then.stage == Stage::Enabled ==> request matches ObsRequest::SetSceneItemEnabled {
        enabled: true,
        ..
    })
}

/// Playing replays, when it succeeds, ends by showing the replay source's item.
pub proof fn law_play_ends_shown(
    movie_paths: Vec<String>,
    connected: bool,
    steps: Seq<Step>,
    replies: Seq<ObsReply>,
    sent: Seq<ObsRequest>,
    outcome: Outcome,
)
    requires
        is_run(steps, replies, sent, Ok(outcome)),
        starts_to(ObsOperation::PlayVlcSource { movie_paths }, connected, steps[0]),
    ensures
        sent.len() > 0,
        sent[0] == ObsRequest::GetCurrentProgramScene,
        sent.last() matches ObsRequest::SetSceneItemEnabled { enabled: true, .. },
{
    let n = replies.len() as int;
    assert(n > 0);
    assert(runs_step(steps[0], replies[0], sent[0], steps[1]));
    let keep = |s: Step| play_step(s);
    assert forall|j: int| 0 <= j < n && #[trigger] keep(steps[j]) implies keep(steps[j + 1]) by {
        assert(runs_step(steps[j], replies[j], sent[j], steps[j + 1]));
    }
    lemma_kept_along_run(steps, replies, sent, Ok(outcome), keep, n - 1);
    assert(runs_step(steps[n - 1], replies[n - 1], sent[n - 1], steps[n]));
}

/// A step of ending a replay; hiding the replay source's item is its last part.
pub open spec fn stop_step(s: Step) -> bool {
    ||| s is Finish
    ||| s matches Step::Send { request, then } && !then.login && (then.stage == Stage::SceneToStop
        || then.stage is SceneToFindItem || then.stage is ItemsToDisable || then.stage
        == Stage::Disabled) && (then.stage == Stage::Disabled ==> request matches ObsRequest::SetSceneItemEnabled {
        enabled: false,
        ..
    })
}

/// When the replay source's playback ends, a run that succeeds either sends
/// nothing (another input ended) or ends by hiding the replay source's item.
pub proof fn law_playback_end_hides_source(
    input_name: String,
    connected: bool,
    steps: Seq<Step>,
    replies: Seq<ObsReply>,
    sent: Seq<ObsRequest>,
    outcome: Outcome,
)
    requires
        is_run(steps, replies, sent, Ok(outcome)),
        starts_to(ObsOperation::OnPlaybackEnded { input_name }, connected, steps[0]),
    ensures
        input_name@ != REPLAY_SOURCE_NAME@ ==> sent.len() == 0,
        input_name@ == REPLAY_SOURCE_NAME@ ==> sent.len() > 0 && sent.last() matches ObsRequest::SetSceneItemEnabled {
            enabled: false,
            ..
        },
{
    let n = replies.len() as int;
    if n > 0 {
        assert(runs_step(steps[0], replies[0], sent[0], steps[1]));
        let keep = |s: Step| stop_step(s);
        assert forall|j: int| 0 <= j < n && #[trigger] keep(steps[j]) implies keep(steps[j + 1]) by {
            assert(runs_step(steps[j], replies[j], sent[j], steps[j + 1]));
        }
        lemma_kept_along_run(steps, replies, sent, Ok(outcome), keep, n - 1);
        assert(runs_step(steps[n - 1], replies[n - 1], sent[n - 1], steps[n]));
    }
}

/// A step of setting up the replay buffer, with the request it answers.
pub open spec fn buffer_step(s: Step) -> bool {
    ||| s is Finish
    ||| s matches Step::Send { request, then } && !then.login && (then.stage == Stage::BufferStatus
        && request == ObsRequest::ReplayBufferStatus || then.stage == Stage::BufferStarted
        && request == ObsRequest::StartReplayBuffer)
}

/// Setting up the replay buffer succeeds only when OBS reported it running, or
/// accepted starting it.
pub proof fn law_buffer_set_up_runs(
    connected: bool,
    steps: Seq<Step>,
    replies: Seq<ObsReply>,
    sent: Seq<ObsRequest>,
    outcome: Outcome,
)
    requires
        is_run(steps, replies, sent, Ok(outcome)),
        starts_to(ObsOperation::SetReplayBuffer, connected, steps[0]),
    ensures
        sent.len() > 0,
        sent.last() == ObsRequest::ReplayBufferStatus && replies.last() == ObsReply::Active(true)
            || sent.last() == ObsRequest::StartReplayBuffer && replies.last() == ObsReply::Done,
{
    let n = replies.len() as int;
    assert(n > 0);
    assert(runs_step(steps[0], replies[0], sent[0], steps[1]));
    let keep = |s: Step| buffer_step(s);
    assert forall|j: int| 0 <= j < n && #[trigger] keep(steps[j]) implies keep(steps[j + 1]) by {
        assert(runs_step(steps[j], replies[j], sent[j], steps[j + 1]));
    }
    lemma_kept_along_run(steps, replies, sent, Ok(outcome), keep, n - 1);
    assert(runs_step(steps[n - 1], replies[n - 1], sent[n - 1], steps[n]));
}

/// Capturing the replay sends exactly one request, to save the replay buffer,
/// and succeeds exactly when OBS accepts it.
pub proof fn law_capture_saves_once(
    connected: bool,
    steps: Seq<Step>,
    replies: Seq<ObsReply>,
    sent: Seq<ObsRequest>,
    result: Result<Outcome, String>,
)
    requires
        is_run(steps, replies, sent, result),
        starts_to(ObsOperation::CaptureReplayBuffer, connected, steps[0]),
    ensures
        connected ==> sent == seq![ObsRequest::SaveReplayBuffer],
        connected ==> (result is Ok <==> replies[0] == ObsReply::Done),
        !connected ==> sent.len() == 0 && result is Err,
{
    if connected {
        assert(runs_step(steps[0], replies[0], sent[0], steps[1]));
        if replies.len() > 1 {
            assert(runs_step(steps[1], replies[1], sent[1], steps[2]));
        }
        assert(sent =~= seq![ObsRequest::SaveReplayBuffer]);
    }
}

proof fn lemma_held_client_stays<C, E>(client: Option<C>, attempts: Seq<Result<C, E>>)
    requires
        client is Some,
    ensures
        client_after_attempts(client, attempts) is Some,
    decreases attempts.len(),
{
    if attempts.len() > 0 {
        lemma_held_client_stays(client_after_attempt(client, attempts[0]), attempts.drop_first());
    }
}

/// Once a connection attempt succeeded, the controller holds a client whatever
/// the later attempts give: failed attempts never take it away.
pub proof fn law_connection_persists<C, E>(client: Option<C>, attempts: Seq<Result<C, E>>, i: int)
    requires
        0 <= i < attempts.len(),
        attempts[i] is Ok,
    ensures
        client_after_attempts(client, attempts) is Some,
    decreases i,
{
    if i == 0 {
        lemma_held_client_stays(client_after_attempt(client, attempts[0]), attempts.drop_first());
    } else {
        assert(attempts.drop_first()[i - 1] == attempts[i]);
        law_connection_persists(client_after_attempt(client, attempts[0]), attempts.drop_first(), i - 1);
    }
}

/// Once a connection attempt succeeded, whatever attempts follow, reading the
/// version never fails with "Not connected to OBS": it sends the version query,
/// and its answer is the version OBS reports or "Failed to get OBS version".
pub proof fn law_connected_version_query<C, E>(
    client: Option<C>,
    attempts: Seq<Result<C, E>>,
    i: int,
    first: Step,
    reply: ObsReply,
    last: Step,
)
    requires
        0 <= i < attempts.len(),
        attempts[i] is Ok,
        starts_to(ObsOperation::GetVersion, client_after_attempts(client, attempts) is Some, first),
        reply_fits(task(Stage::Version, false), reply),
        resumes_to(task(Stage::Version, false), reply, last),
    ensures
        first == (Step::Send { request: ObsRequest::GetVersion, then: task(Stage::Version, false) }),
        reply matches ObsReply::Version(v) ==> last == Step::Finish(Ok(Outcome::Version(v))),
        reply is Failed ==> fails_with(last, VERSION_FAILED@),
{
    law_connection_persists(client, attempts, i);
}

/// In the login sequence, a VLC input list that holds the replay source (at any
/// position) leads straight on to the subscription to events.
pub proof fn law_login_existing_source_goes_on_to_events(names: Vec<String>, step: Step)
    requires
        exists|i: int| 0 <= i < names@.len() && (#[trigger] names@[i])@ == REPLAY_SOURCE_NAME@,
        resumes_to(task(Stage::VlcInputsToInit, true), ObsReply::Inputs(names), step),
    ensures
        step == (Step::Send {
            request: ObsRequest::SubscribeEvents,
            then: task(Stage::Subscription, true),
        }),
{
}

/// A login on a connected client in which OBS accepts every request succeeds,
/// whatever the state of the replay buffer and whether the replay source exists,
/// and its last request subscribes to events.
pub proof fn law_login_without_failures_succeeds(
    steps: Seq<Step>,
    replies: Seq<ObsReply>,
    sent: Seq<ObsRequest>,
    result: Result<Outcome, String>,
)
    requires
        is_run(steps, replies, sent, result),
        starts_to(ObsOperation::LoginInit, true, steps[0]),
        forall|i: int| 0 <= i < replies.len() ==> !((#[trigger] replies[i]) is Failed),
    ensures
        result == Ok::<Outcome, String>(Outcome::Nothing),
        sent.len() > 0,
        sent.last() == ObsRequest::SubscribeEvents,
{
    let n = replies.len() as int;
    assert(n > 0);
    assert(runs_step(steps[0], replies[0], sent[0], steps[1]));
    let keep = |s: Step| login_step(s);
    assert forall|j: int| 0 <= j < n && #[trigger] keep(steps[j]) implies keep(steps[j + 1]) by {
        assert(runs_step(steps[j], replies[j], sent[j], steps[j + 1]));
    }
    lemma_kept_along_run(steps, replies, sent, result, keep, n - 1);
    assert(runs_step(steps[n - 1], replies[n - 1], sent[n - 1], steps[n]));
    assert(!(replies[n - 1] is Failed));
}

/// When no listed VLC input is the replay source (the empty list included), the
/// set-up asks for the current scene, and then creates the replay source in the
/// scene OBS reports: a VLC input named and of kind "vlc_source", with an empty
/// play-list, as a hidden item.
pub proof fn law_missing_source_is_created(
    login: bool,
    names: Vec<String>,
    step: Step,
    scene: u128,
    next: Step,
)
    requires
        forall|i: int| 0 <= i < names@.len() ==> (#[trigger] names@[i])@ != REPLAY_SOURCE_NAME@,
        resumes_to(task(Stage::VlcInputsToInit, login), ObsReply::Inputs(names), step),
        resumes_to(task(Stage::SceneToCreate, login), ObsReply::Scene(scene), next),
    ensures
        step == (Step::Send {
            request: ObsRequest::GetCurrentProgramScene,
            then: task(Stage::SceneToCreate, login),
        }),
        next matches Step::Send {
            request: ObsRequest::CreateInput { scene: s, input, kind, settings, item_enabled },
            then,
        } && s == scene && input@ == REPLAY_SOURCE_NAME@ && kind@ == VLC_SOURCE_KIND@
            && settings.playlist@.len() == 0 && item_enabled == Some(false) && then == task(
            Stage::Created,
            login,
        ),
{
}

/// Whether the replay source exists is answered from the whole input list: true
/// exactly when some listed input, at any position, is named "vlc_source".
pub proof fn law_exists_answer_reads_every_input(names: Vec<String>, step: Step)
    requires
        resumes_to(task(Stage::VlcInputsToReport, false), ObsReply::Inputs(names), step),
    ensures
        step matches Step::Finish(Ok(Outcome::Present(present))) && (present <==> exists|i: int|
            0 <= i < names@.len() && (#[trigger] names@[i])@ == REPLAY_SOURCE_NAME@),
{
}

/// `id` is the id of the first item of `items` whose source is the replay source.
pub open spec fn first_replay_id(items: Seq<SceneItemEntry>, id: i64) -> bool {
    exists|k: int|
        0 <= k < items.len() && (#[trigger] items[k]).id == id && items[k].source_name@
            == REPLAY_SOURCE_NAME@ && forall|j: int|
            0 <= j < k ==> (#[trigger] items[j]).source_name@ != REPLAY_SOURCE_NAME@
}

pub proof fn lemma_replay_item_id_is_first(items: Seq<SceneItemEntry>)
    requires
        has_replay_item_at_some(items),
    ensures
        first_replay_id(items, replay_item_id(items)),
{
    lemma_first_replay_item_exists(items);
    let k = choose|k: int| is_first_replay_item(items, k);
    assert(items[k].id == replay_item_id(items));
}

pub open spec fn has_replay_item_at_some(items: Seq<SceneItemEntry>) -> bool {
    exists|i: int| 0 <= i < items.len() && (#[trigger] items[i]).source_name@ == REPLAY_SOURCE_NAME@
}

/// Playing replays works in the scene OBS reported as current: the items listed
/// and the item shown are those of that scene, and the item shown is the first
/// listed item of the replay source.
pub proof fn law_play_works_in_reported_scene(
    movie_paths: Vec<String>,
    steps: Seq<Step>,
    replies: Seq<ObsReply>,
    sent: Seq<ObsRequest>,
    result: Result<Outcome, String>,
    scene: u128,
)
    requires
        is_run(steps, replies, sent, result),
        starts_to(ObsOperation::PlayVlcSource { movie_paths }, true, steps[0]),
        replies.len() > 0,
        replies[0] == ObsReply::Scene(scene),
    ensures
        sent.len() <= 4,
        forall|i: int|
            0 <= i < sent.len() ==> (#[trigger] sent[i] matches ObsRequest::ListSceneItems { scene: s }
                ==> s == scene),
        forall|i: int|
            0 <= i < sent.len() ==> (#[trigger] sent[i] matches ObsRequest::SetSceneItemEnabled {
                scene: s,
                item_id,
                enabled,
            } ==> s == scene && enabled && i == 3 && (replies[2] matches ObsReply::SceneItems(items)
                && first_replay_id(items@, item_id))),
{
    let n = replies.len() as int;
    assert(runs_step(steps[0], replies[0], sent[0], steps[1]));
    if n > 1 {
        assert(runs_step(steps[1], replies[1], sent[1], steps[2]));
    }
    if n > 2 {
        assert(runs_step(steps[2], replies[2], sent[2], steps[3]));
        if let ObsReply::SceneItems(items) = replies[2] {
            lemma_replay_item_id_is_first(items@);
        }
    }
    if n > 3 {
        assert(runs_step(steps[3], replies[3], sent[3], steps[4]));
    }
    if n > 4 {
        assert(runs_step(steps[4], replies[4], sent[4], steps[5]));
    }
}

/// Ending the replay's playback hides the replay source's item in the scene OBS
/// first reported as current, and looks the item up in the scene it reported next;
/// the item hidden is the first listed item of the replay source.
pub proof fn law_playback_end_works_in_reported_scene(
    steps: Seq<Step>,
    replies: Seq<ObsReply>,
    sent: Seq<ObsRequest>,
    result: Result<Outcome, String>,
    input_name: String,
    scene: u128,
)
    requires
        is_run(steps, replies, sent, result),
        starts_to(ObsOperation::OnPlaybackEnded { input_name }, true, steps[0]),
        replies.len() > 0,
        replies[0] == ObsReply::Scene(scene),
    ensures
        sent.len() <= 4,
        forall|i: int|
            0 <= i < sent.len() ==> (#[trigger] sent[i] matches ObsRequest::ListSceneItems { scene: s }
                ==> i == 2 && replies[1] == ObsReply::Scene(s)),
        forall|i: int|
            0 <= i < sent.len() ==> (#[trigger] sent[i] matches ObsRequest::SetSceneItemEnabled {
                scene: s,
                item_id,
                enabled,
            } ==> s == scene && !enabled && i == 3 && (replies[2] matches ObsReply::SceneItems(items)
                && first_replay_id(items@, item_id))),
{
    let n = replies.len() as int;
    assert(runs_step(steps[0], replies[0], sent[0], steps[1]));
    if n > 1 {
        assert(runs_step(steps[1], replies[1], sent[1], steps[2]));
    }
    if n > 2 {
        assert(runs_step(steps[2], replies[2], sent[2], steps[3]));
        if let ObsReply::SceneItems(items) = replies[2] {
            lemma_replay_item_id_is_first(items@);
        }
    }
    if n > 3 {
        assert(runs_step(steps[3], replies[3], sent[3], steps[4]));
    }
    if n > 4 {
        assert(runs_step(steps[4], replies[4], sent[4], steps[5]));
    }
}

} // verus!
