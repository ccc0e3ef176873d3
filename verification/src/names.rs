//! Names and messages shared by the OBS operations.
use vstd::prelude::*;

verus! {

/// Name of the media source that plays replays back.
pub const REPLAY_SOURCE_NAME: &'static str = "vlc_source";

/// Input kind of a VLC video source in OBS.
pub const VLC_SOURCE_KIND: &'static str = "vlc_source";

pub const NOT_CONNECTED: &'static str = "Not connected to OBS";
pub const CONNECT_FAILED: &'static str = "Failed to connect to OBS";
pub const CONNECTED: &'static str = "Connected to OBS";
pub const VERSION_FAILED: &'static str = "Failed to get OBS version";
pub const INPUTS_FAILED: &'static str = "Failed to get VLC source";
pub const SCENE_FAILED: &'static str = "Failed to get current scene";
pub const SCENE_ITEMS_FAILED: &'static str = "Failed to get scene items";
pub const PLAYLIST_FAILED: &'static str = "Failed to create VLC source: ";
pub const ENABLE_FAILED: &'static str = "Failed to set VLC source enabled: ";
pub const DISABLE_FAILED: &'static str = "Failed to set VLC source disabled: ";
pub const EVENTS_FAILED: &'static str = "Failed to generate events listener";
pub const BUFFER_STATE_FAILED: &'static str = "Failed to get replay buffer state";
pub const BUFFER_START_FAILED: &'static str = "Failed to start replay buffer";
pub const BUFFER_SAVE_FAILED: &'static str = "Failed to save replay buffer";

/// A fresh `String` holding a copy of `text`.
pub fn owned(text: &str) -> (res: String)
    ensures
        res@ == text@,
{
    text.to_owned()
}

/// `prefix` followed by `detail`, as a new `String`.
pub fn prefixed(prefix: &str, detail: &String) -> (res: String)
    ensures
        res@ == prefix@ + detail@,
{
    let mut text = prefix.to_owned();
    text.append(detail.as_str());
    text
}

} // verus!
