//! The typed message protocol shared by the three actors.
//!
//! Every control message pairs a [`Command`] with the [`Origin`] of its
//! sender. The origin matters only for `QueryLength`: it selects the
//! reply channel that receives the answer, and it is preserved
//! end-to-end from the asking actor to the reply.

use vstd::prelude::*;

verus! {

/// A playback-control command, carrying no payload beyond its tag.
#[derive(Clone, Copy, Debug, PartialEq, Eq, Structural)]
pub enum Command {
    /// Resume playback (idempotent if already playing).
    Play,
    /// Suspend playback (idempotent if already paused).
    Pause,
    /// Halt playback, clear pending tracks, and terminate the player loop.
    Stop,
    /// Drop the current track and advance; a no-op on an empty queue.
    Skip,
    /// Lower the volume by one adjustment unit, clamped at zero.
    VolumeDown,
    /// Raise the volume by one adjustment unit.
    VolumeUp,
    /// Ask for the count of pending tracks; answered on the sender's
    /// reply channel.
    QueryLength,
    /// Reshuffle the full known track set and append it to the queue.
    Refill,
}

/// The logical sender of a `QueryLength` request. It determines which
/// reply channel receives the answer.
#[derive(Clone, Copy, Debug, PartialEq, Eq, Structural)]
pub enum Origin {
    /// The interactive input actor.
    Input,
    /// The queue-depth polling actor.
    LifeSupport,
    /// Reserved for the player itself; never produced in the
    /// steady-state protocol, and no reply channel is registered for it.
    Player,
}

/// An immutable message: one command tagged with its sender's origin.
/// It is created at the sending actor and consumed exactly once by the
/// player actor.
#[derive(Clone, Copy, Debug, PartialEq, Eq, Structural)]
pub struct Message {
    pub command: Command,
    pub origin: Origin,
}

/// The answer to a `QueryLength` request: the pending-track count,
/// tagged with the origin whose reply channel must receive it.
#[derive(Clone, Copy, Debug, PartialEq, Eq, Structural)]
pub struct Reply {
    pub origin: Origin,
    pub length: usize,
}

} // verus!
