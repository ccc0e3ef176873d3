# obs_replay

Control logic of a small replay-clip tool for OBS Studio: when a goal is
signalled (a UDP command, or the Enter key), the replay buffer is saved, and
saved clips can be played back through a VLC source in the current scene.

- `src/` is the library, verified with Verus. Each OBS operation is a state
  machine (`task.rs`): it sends one request at a time and decides from each
  reply what comes next, down to the exact error texts. `laws.rs` proves
  properties over all inputs (no request without a client, every operation
  ends after at most six requests, failures end operations, the replay
  buffer is not restarted, ...).
- `app/` is the program: the Tauri commands, the obs-websocket client
  (`obws`) that performs the requests, the UDP listener, the keyboard hook
  and the shutter sound.
- `tests/` run the library against a scripted OBS.
