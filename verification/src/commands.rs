//! Commands that trigger a replay capture: UDP messages and the clip key.
use vstd::prelude::*;
use vstd::utf8::{decode_utf8, valid_utf8};
use crate::names::{owned, CONNECTED, CONNECT_FAILED, VERSION_FAILED};

verus! {

/// The UDP port on which commands are received, and to which the clip key sends.
pub const COMMAND_PORT: u16 = 12345;

/// Size of the buffer one command datagram is received into.
pub const RECEIVE_BUFFER_SIZE: usize = 2048;

/// Command that captures the replay after a delay.
pub const GOALS_COMMAND: &'static str = "goals";

/// Command that captures the replay at once.
pub const INSTANT_GOALS_COMMAND: &'static str = "__goals__";

/// How long a `goals` command waits before the capture, in milliseconds.
pub const GOALS_DELAY_MS: u64 = 2000;

/// A command received over UDP: the command name and optional data (as JSON text).
#[derive(Debug, PartialEq, Eq)]
pub struct CommandData {
    pub cmd: String,
    pub data: Option<String>,
}

/// What a received command asks for.
#[derive(Debug, PartialEq, Eq, Clone, Copy, Structural)]
pub enum CommandAction {
    Ignore,
    /// Save the replay buffer after waiting `delay_ms` milliseconds (none when 0).
    CaptureReplay { delay_ms: u64 },
}

/// The action for a command named `cmd`.
pub open spec fn action_for(cmd: Seq<char>) -> CommandAction {
    if cmd == GOALS_COMMAND@ {
        CommandAction::CaptureReplay { delay_ms: GOALS_DELAY_MS }
    } else if cmd == INSTANT_GOALS_COMMAND@ {
        CommandAction::CaptureReplay { delay_ms: 0 }
    } else {
        CommandAction::Ignore
    }
}

/// What the controller does with a received command.
pub fn command_action(command: &CommandData) -> (action: CommandAction)
    ensures
        action == action_for(command.cmd@),
{
    if command.cmd == owned(GOALS_COMMAND) {
        CommandAction::CaptureReplay { delay_ms: GOALS_DELAY_MS }
    } else if command.cmd == owned(INSTANT_GOALS_COMMAND) {
        CommandAction::CaptureReplay { delay_ms: 0 }
    } else {
        CommandAction::Ignore
    }
}

/// Whether a command is `goals`, the only command the plain UDP listener reacts to.
pub fn is_goal_command(command: &CommandData) -> (res: bool)
    ensures
        res == (command.cmd@ == GOALS_COMMAND@),
{
    command.cmd == owned(GOALS_COMMAND)
}

/// Wraps `std::str::from_utf8`, which returns the text of `bytes` when they are
/// valid UTF-8 and an error otherwise. The contract states that with vstd's
/// model of UTF-8 (`valid_utf8`, `decode_utf8`).
#[verifier::external_body]
fn utf8_text(bytes: &[u8]) -> (res: Option<String>)
    ensures
        res is Some <==> valid_utf8(bytes@),
        res matches Some(text) ==> text@ == decode_utf8(bytes@),
{
    match std::str::from_utf8(bytes) {
        Ok(text) => Some(text.to_owned()),
        Err(_) => None,
    }
}

/// The text of the first `len` bytes of `buffer`, or `None` when they are not UTF-8.
pub fn datagram_text(buffer: &[u8], len: usize) -> (res: Option<String>)
    requires
        len <= buffer@.len(),
    ensures
        res is Some <==> valid_utf8(buffer@.take(len as int)),
        res matches Some(text) ==> text@ == decode_utf8(buffer@.take(len as int)),
{
    let received = &buffer[0..len];
    assert(received@ == buffer@.take(len as int));
    utf8_text(received)
}

/// The window message of a key release.
pub const WM_KEYUP: u32 = 0x0101;

/// The window message of a key press.
pub const WM_KEYDOWN: u32 = 0x0100;

/// The hook code of a keyboard event the hook is to act on.
pub const HC_ACTION: u32 = 0;

/// The virtual-key code of the clip key (Enter).
pub const CLIP_KEY: u16 = 13;

/// Whether a low-level keyboard event is the release of the clip key: the message,
/// taken as a 32-bit number, is a key release, the hook code is an action and the
/// key is Enter.
pub fn is_clip_key_release(ncode: i32, message: usize, key_code: u16) -> (res: bool)
    ensures
        res == (message as u32 == WM_KEYUP && ncode == 0 && key_code == CLIP_KEY),
{
    let code = ncode as u32;
    assert(code == 0 <==> ncode == 0) by (bit_vector)
        requires
            code == ncode as u32,
    ;
    message as u32 == WM_KEYUP && code == HC_ACTION && key_code == CLIP_KEY
}

/// The bytes of `{"cmd":"__goals__"}`.
pub open spec fn goal_message_bytes() -> Seq<u8> {
    seq![
        123u8, 34u8, 99u8, 109u8, 100u8, 34u8, 58u8, 34u8, 95u8, 95u8, 103u8, 111u8, 97u8, 108u8,
        115u8, 95u8, 95u8, 34u8, 125u8,
    ]
}

/// The datagram the clip key sends: the command `__goals__` as JSON.
pub fn goal_datagram() -> (bytes: Vec<u8>)
    ensures
        bytes@ == goal_message_bytes(),
{
    let bytes: Vec<u8> = vec![
        123u8, 34u8, 99u8, 109u8, 100u8, 34u8, 58u8, 34u8, 95u8, 95u8, 103u8, 111u8, 97u8, 108u8,
        115u8, 95u8, 95u8, 34u8, 125u8,
    ];
    assert(bytes@ =~= goal_message_bytes());
    bytes
}

/// The answer of the "get OBS version" command: the version, or one fixed error for any failure.
pub fn obs_version_answer(result: Result<String, String>) -> (res: Result<String, String>)
    ensures
        result is Ok ==> res == result,
        result is Err ==> (res matches Err(e) && e@ == VERSION_FAILED@),
{
    match result {
        Ok(version) => Ok(version),
        Err(_) => Err(owned(VERSION_FAILED)),
    }
}

/// The answer of the "connect to OBS" command.
pub fn connect_answer(result: Result<bool, String>) -> (res: Result<String, String>)
    ensures
        result is Ok ==> (res matches Ok(m) && m@ == CONNECTED@),
        result is Err ==> (res matches Err(e) && e@ == CONNECT_FAILED@),
{
    match result {
        Ok(_) => Ok(owned(CONNECTED)),
        Err(_) => Err(owned(CONNECT_FAILED)),
    }
}

} // verus!
