//! The requests sent to OBS, the replies they get, and the operations built from them.
use vstd::prelude::*;
use crate::names::{owned, REPLAY_SOURCE_NAME};
use crate::settings::VlcSettings;

verus! {

/// What the OBS operations read of a scene item: its numeric id and the name of its source.
#[derive(Debug, PartialEq, Eq)]
pub struct SceneItemEntry {
    pub id: i64,
    pub source_name: String,
}

/// One request to OBS. Scenes are named by their UUID, as a 128-bit number.
#[derive(Debug, PartialEq, Eq)]
pub enum ObsRequest {
    /// Ask for the version of OBS Studio.
    GetVersion,
    /// List the inputs of one input kind.
    ListInputs { kind: String },
    /// Ask for the current program scene.
    GetCurrentProgramScene,
    /// Create an input of `kind` named `input` in `scene`, with `settings`.
    CreateInput { scene: u128, input: String, kind: String, settings: VlcSettings, item_enabled: Option<bool> },
    /// Set the settings of the input named `input`.
    SetInputSettings { input: String, settings: VlcSettings, overlay: Option<bool> },
    /// List the items of `scene`.
    ListSceneItems { scene: u128 },
    /// Show or hide one item of `scene`.
    SetSceneItemEnabled { scene: u128, item_id: i64, enabled: bool },
    /// Subscribe to the events OBS sends.
    SubscribeEvents,
    /// Ask whether the replay buffer is running.
    ReplayBufferStatus,
    /// Start the replay buffer.
    StartReplayBuffer,
    /// Save the replay buffer to a file.
    SaveReplayBuffer,
}

/// The reply to one request, as the program hands it back.
#[derive(Debug, PartialEq, Eq)]
pub enum ObsReply {
    /// The request failed; the text describes the error.
    Failed(String),
    /// The request succeeded and returns nothing the operations read.
    Done,
    /// The version of OBS Studio.
    Version(String),
    /// The names of the listed inputs.
    Inputs(Vec<String>),
    /// The UUID of the current program scene.
    Scene(u128),
    /// The items of a scene, in the order OBS lists them.
    SceneItems(Vec<SceneItemEntry>),
    /// Whether the replay buffer is running.
    Active(bool),
}

/// What an operation returns when it succeeds.
#[derive(Debug, PartialEq, Eq)]
pub enum Outcome {
    Nothing,
    /// Whether the replay source exists.
    Present(bool),
    /// The version of OBS Studio.
    Version(String),
}

/// The operations of the OBS controller.
#[derive(Debug, PartialEq, Eq)]
pub enum ObsOperation {
    /// Read the version of OBS Studio.
    GetVersion,
    /// Tell whether a VLC source named like the replay source exists.
    IsExistVlcSource,
    /// Create the replay source, hidden, in the current scene, unless it exists.
    InitVlcSource,
    /// Give the replay source a play-list of `movie_paths` and show it.
    PlayVlcSource { movie_paths: Vec<String> },
    /// Hide the replay source when the input named `input_name` is the one that ended.
    OnPlaybackEnded { input_name: String },
    /// Subscribe to the events of OBS.
    GenerateEventListener,
    /// Start the replay buffer unless it runs.
    SetReplayBuffer,
    /// Save the replay buffer.
    CaptureReplayBuffer,
    /// Start the replay buffer, create the replay source, then subscribe to events.
    LoginInit,
}

/// `names` holds the replay source's name.
pub open spec fn has_replay_source(names: Seq<String>) -> bool {
    exists|i: int| 0 <= i < names.len() && (#[trigger] names[i])@ == REPLAY_SOURCE_NAME@
}

/// `items[i]` is the first item whose source is the replay source.
pub open spec fn is_first_replay_item(items: Seq<SceneItemEntry>, i: int) -> bool {
    &&& 0 <= i < items.len()
    &&& items[i].source_name@ == REPLAY_SOURCE_NAME@
    &&& forall|j: int| 0 <= j < i ==> (#[trigger] items[j]).source_name@ != REPLAY_SOURCE_NAME@
}

/// Some item of `items` shows the replay source.
pub open spec fn has_replay_item(items: Seq<SceneItemEntry>) -> bool {
    exists|i: int| 0 <= i < items.len() && (#[trigger] items[i]).source_name@ == REPLAY_SOURCE_NAME@
}

/// The id of the first item of `items` that shows the replay source.
pub open spec fn replay_item_id(items: Seq<SceneItemEntry>) -> i64 {
    items[choose|i: int| is_first_replay_item(items, i)].id
}

/// An item that shows the replay source has a first one.
pub proof fn lemma_first_replay_item_exists(items: Seq<SceneItemEntry>)
    requires
        has_replay_item(items),
    ensures
        exists|i: int| is_first_replay_item(items, i),
    decreases items.len(),
{
    if items[0].source_name@ == REPLAY_SOURCE_NAME@ {
        assert(is_first_replay_item(items, 0));
    } else {
        let rest = items.drop_first();
        let k = choose|k: int| 0 <= k < items.len() && (#[trigger] items[k]).source_name@ == REPLAY_SOURCE_NAME@;
        assert(rest[k - 1] == items[k]);
        lemma_first_replay_item_exists(rest);
        let i = choose|i: int| is_first_replay_item(rest, i);
        assert forall|j: int| 0 <= j < i + 1 implies (#[trigger] items[j]).source_name@ != REPLAY_SOURCE_NAME@ by {
            if j > 0 {
                assert(items[j] == rest[j - 1]);
            }
        }
        assert(is_first_replay_item(items, i + 1));
    }
}

/// The first item is unique.
pub proof fn lemma_first_replay_item_unique(items: Seq<SceneItemEntry>, i: int, k: int)
    requires
        is_first_replay_item(items, i),
        is_first_replay_item(items, k),
    ensures
        i == k,
{
    if i < k {
        assert(items[i].source_name@ != REPLAY_SOURCE_NAME@);
    } else if k < i {
        assert(items[k].source_name@ != REPLAY_SOURCE_NAME@);
    }
}

/// Whether `names` holds the replay source's name.
pub fn contains_replay_source(names: &Vec<String>) -> (res: bool)
    ensures
        res == has_replay_source(names@),
{
    let wanted = owned(REPLAY_SOURCE_NAME);
    let mut i: usize = 0;
    while i < names.len()
        invariant
            i <= names.len(),
            wanted@ == REPLAY_SOURCE_NAME@,
            forall|j: int| 0 <= j < i ==> (#[trigger] names@[j])@ != REPLAY_SOURCE_NAME@,
        decreases names.len() - i,
    {
        if names[i] == wanted {
            return true;
        }
        i = i + 1;
    }
    false
}

/// Whether some item of `items` shows the replay source.
pub fn contains_replay_item(items: &Vec<SceneItemEntry>) -> (res: bool)
    ensures
        res == has_replay_item(items@),
{
    let wanted = owned(REPLAY_SOURCE_NAME);
    let mut i: usize = 0;
    while i < items.len()
        invariant
            i <= items.len(),
            wanted@ == REPLAY_SOURCE_NAME@,
            forall|j: int| 0 <= j < i ==> (#[trigger] items@[j]).source_name@ != REPLAY_SOURCE_NAME@,
        decreases items.len() - i,
    {
        if items[i].source_name == wanted {
            return true;
        }
        i = i + 1;
    }
    false
}

/// The id of the first item of `items` that shows the replay source.
pub fn find_replay_item_id(items: &Vec<SceneItemEntry>) -> (id: i64)
    requires
        has_replay_item(items@),
    ensures
        id == replay_item_id(items@),
{
    proof {
        lemma_first_replay_item_exists(items@);
    }
    let wanted = owned(REPLAY_SOURCE_NAME);
    let mut i: usize = 0;
    while i < items.len()
        invariant
            i <= items.len(),
            wanted@ == REPLAY_SOURCE_NAME@,
            exists|k: int| is_first_replay_item(items@, k),
            forall|j: int| 0 <= j < i ==> (#[trigger] items@[j]).source_name@ != REPLAY_SOURCE_NAME@,
        decreases items.len() - i,
    {
        if items[i].source_name == wanted {
            proof {
                assert(is_first_replay_item(items@, i as int));
                let k = choose|k: int| is_first_replay_item(items@, k);
                lemma_first_replay_item_unique(items@, i as int, k);
            }
            return items[i].id;
        }
        i = i + 1;
    }
    proof {
        let k = choose|k: int| is_first_replay_item(items@, k);
        assert(items@[k].source_name@ != REPLAY_SOURCE_NAME@);
    }
    0
}

} // verus!
