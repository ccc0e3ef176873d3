//! What the controller does with the events OBS sends.
use vstd::prelude::*;

verus! {

/// Name of the UI event that announces a saved replay file.
pub const CAPTURE_FILE_EVENT: &'static str = "capture_file";

/// An event from OBS, as far as the controller reads it.
#[derive(Debug, PartialEq, Eq)]
pub enum ObsEvent {
    /// The replay buffer was saved to the file at `path`.
    ReplayBufferSaved { path: String },
    /// The media input named `input_name` finished playing.
    MediaInputPlaybackEnded { input_name: String },
    /// Any other event.
    Other,
}

/// What the controller does with one event.
#[derive(Debug, PartialEq, Eq)]
pub enum EventAction {
    /// Announce the saved file `path` to the UI and play the shutter sound.
    AnnounceCapture { path: String },
    /// Nothing.
    Ignore,
    /// Report the event on the console.
    Report,
}

/// The action for `event`: a saved replay is announced, the end of a playback is
/// ignored, and any other event is reported.
pub fn event_action(event: ObsEvent) -> (action: EventAction)
    ensures
        match event {
            ObsEvent::ReplayBufferSaved { path } => action == EventAction::AnnounceCapture { path },
            ObsEvent::MediaInputPlaybackEnded { .. } => action == EventAction::Ignore,
            ObsEvent::Other => action == EventAction::Report,
        },
{
    match event {
        ObsEvent::ReplayBufferSaved { path } => EventAction::AnnounceCapture { path },
        ObsEvent::MediaInputPlaybackEnded { .. } => EventAction::Ignore,
        ObsEvent::Other => EventAction::Report,
    }
}

} // verus!
