//! The input actor's command mapping.
//!
//! The input actor bridges an interactive line-oriented source to the
//! command channel: it reads one line, maps it to a [`Command`] by
//! exact match, and forwards the result tagged with [`Origin::Input`].
//! An unrecognized line maps to nothing; the actor reports it and
//! prompts again rather than terminating.

use vstd::prelude::*;

use crate::protocol::{Command, Message, Origin};

verus! {

/// The byte of the `p` (play) command.
pub const KEY_PLAY: u8 = 112;

/// The byte of the `=` (pause) command.
pub const KEY_PAUSE: u8 = 61;

/// The byte of the `s` (skip) command; also the first byte of `stop`.
pub const KEY_SKIP: u8 = 115;

/// The second byte of `stop`.
pub const KEY_T: u8 = 116;

/// The third byte of `stop`.
pub const KEY_O: u8 = 111;

/// The byte of the `+` (volume up) command.
pub const KEY_VOLUME_UP: u8 = 43;

/// The byte of the `-` (volume down) command.
pub const KEY_VOLUME_DOWN: u8 = 45;

/// The byte of the `q` (query length) command.
pub const KEY_QUERY: u8 = 113;

/// The command a line of input denotes, by exact match on its bytes:
/// `p` plays, `=` pauses, `s` skips, `stop` stops, `+` and `-` adjust
/// the volume, `q` asks for the queue length; anything else denotes
/// nothing.
pub open spec fn parse_spec(line: Seq<u8>) -> Option<Command> {
    if line == seq![KEY_PLAY] {
        Some(Command::Play)
    } else if line == seq![KEY_PAUSE] {
        Some(Command::Pause)
    } else if line == seq![KEY_SKIP] {
        Some(Command::Skip)
    } else if line == seq![KEY_SKIP, KEY_T, KEY_O, KEY_PLAY] {
        Some(Command::Stop)
    } else if line == seq![KEY_VOLUME_UP] {
        Some(Command::VolumeUp)
    } else if line == seq![KEY_VOLUME_DOWN] {
        Some(Command::VolumeDown)
    } else if line == seq![KEY_QUERY] {
        Some(Command::QueryLength)
    } else {
        None
    }
}

/// Maps one line of input to its command, exactly as [`parse_spec`]
/// says: `Some` on the seven recognized spellings, `None` on every
/// other line.
pub fn parse_command(line: &[u8]) -> (r: Option<Command>)
    ensures
        r == parse_spec(line@),
{
    if line.len() == 1 {
        let c = line[0];
        if c == KEY_PLAY {
            proof {
                assert(line@ =~= seq![KEY_PLAY]);
            }
            Some(Command::Play)
        } else if c == KEY_PAUSE {
            proof {
                assert(line@ =~= seq![KEY_PAUSE]);
            }
            Some(Command::Pause)
        } else if c == KEY_SKIP {
            proof {
                assert(line@ =~= seq![KEY_SKIP]);
            }
            Some(Command::Skip)
        } else if c == KEY_VOLUME_UP {
            proof {
                assert(line@ =~= seq![KEY_VOLUME_UP]);
            }
            Some(Command::VolumeUp)
        } else if c == KEY_VOLUME_DOWN {
            proof {
                assert(line@ =~= seq![KEY_VOLUME_DOWN]);
            }
            Some(Command::VolumeDown)
        } else if c == KEY_QUERY {
            proof {
                assert(line@ =~= seq![KEY_QUERY]);
            }
            Some(Command::QueryLength)
        } else {
            None
        }
    } else if line.len() == 4 && line[0] == KEY_SKIP && line[1] == KEY_T && line[2] == KEY_O && line[3]
        == KEY_PLAY {
        proof {
            assert(line@ =~= seq![KEY_SKIP, KEY_T, KEY_O, KEY_PLAY]);
        }
        Some(Command::Stop)
    } else {
        None
    }
}

/// Maps one line of input to the message the input actor forwards:
/// the parsed command tagged with `Origin::Input`, or nothing on an
/// unrecognized line.
pub fn input_message(line: &[u8]) -> (r: Option<Message>)
    ensures
        parse_spec(line@) is Some ==> r == Some(
            Message { command: parse_spec(line@).unwrap(), origin: Origin::Input },
        ),
        parse_spec(line@) is None ==> r is None,
{
    match parse_command(line) {
        Some(command) => Some(Message { command, origin: Origin::Input }),
        None => None,
    }
}

/// The periodic length query the input actor issues to display queue
/// depth to the operator.
pub fn input_query() -> (m: Message)
    ensures
        m == (Message { command: Command::QueryLength, origin: Origin::Input }),
{
    Message { command: Command::QueryLength, origin: Origin::Input }
}

} // verus!
