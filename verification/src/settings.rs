//! Settings of the VLC source that plays replays back.
use vstd::prelude::*;

verus! {

/// What the source does when it is not visible.
#[derive(Clone, Copy, Debug, PartialEq, Eq, Structural)]
pub enum PlaybackBehavior {
    AlwaysPlay,
    StopRestart,
    PauseUnpause,
}

/// One file of a VLC play-list.
#[derive(Debug, PartialEq, Eq)]
pub struct PlaylistEntry {
    pub path: String,
    pub hidden: bool,
    pub selected: bool,
}

/// Settings of a VLC video source.
#[derive(Debug, PartialEq, Eq)]
pub struct VlcSettings {
    pub loop_playlist: bool,
    pub shuffle: bool,
    pub playback_behavior: PlaybackBehavior,
    pub playlist: Vec<PlaylistEntry>,
    pub network_caching_ms: u64,
    pub track: u32,
    pub subtitle_enable: bool,
    pub subtitle: u32,
}

/// Network caching of the replay source, in milliseconds.
pub const NETWORK_CACHING_MS: u64 = 100;

/// `playlist` lists exactly `paths`, in order, each visible and unselected.
pub open spec fn is_playlist_of(playlist: Seq<PlaylistEntry>, paths: Seq<String>) -> bool {
    &&& playlist.len() == paths.len()
    &&& forall|i: int|
        0 <= i < paths.len() ==> {
            &&& (#[trigger] playlist[i]).path@ == paths[i]@
            &&& !playlist[i].hidden
            &&& !playlist[i].selected
        }
}

/// The settings the replay source is given to play `paths`: no loop, no shuffle,
/// stop when hidden and restart when shown, 100 ms of network caching, audio
/// track 1 and no subtitles.
pub open spec fn is_replay_settings(settings: VlcSettings, paths: Seq<String>) -> bool {
    &&& !settings.loop_playlist
    &&& !settings.shuffle
    &&& settings.playback_behavior == PlaybackBehavior::StopRestart
    &&& is_playlist_of(settings.playlist@, paths)
    &&& settings.network_caching_ms == NETWORK_CACHING_MS
    &&& settings.track == 1
    &&& !settings.subtitle_enable
    &&& settings.subtitle == 0
}

/// The play-list entries for `paths`, in order.
pub fn replay_playlist(paths: &Vec<String>) -> (playlist: Vec<PlaylistEntry>)
    ensures
        is_playlist_of(playlist@, paths@),
{
    let mut playlist: Vec<PlaylistEntry> = Vec::new();
    let mut i: usize = 0;
    while i < paths.len()
        invariant
            i <= paths.len(),
            playlist@.len() == i,
            forall|j: int|
                0 <= j < i ==> {
                    &&& (#[trigger] playlist@[j]).path@ == paths@[j]@
                    &&& !playlist@[j].hidden
                    &&& !playlist@[j].selected
                },
        decreases paths.len() - i,
    {
        let entry = PlaylistEntry { path: paths[i].clone(), hidden: false, selected: false };
        playlist.push(entry);
        i = i + 1;
    }
    playlist
}

/// The replay source's settings for playing `paths`.
pub fn replay_settings(paths: &Vec<String>) -> (settings: VlcSettings)
    ensures
        is_replay_settings(settings, paths@),
{
    VlcSettings {
        loop_playlist: false,
        shuffle: false,
        playback_behavior: PlaybackBehavior::StopRestart,
        playlist: replay_playlist(paths),
        network_caching_ms: NETWORK_CACHING_MS,
        track: 1,
        subtitle_enable: false,
        subtitle: 0,
    }
}

/// The settings the replay source is created with: those of an empty play-list.
pub fn initial_settings() -> (settings: VlcSettings)
    ensures
        is_replay_settings(settings, Seq::empty()),
{
    let no_paths: Vec<String> = Vec::new();
    replay_settings(&no_paths)
}

} // verus!
