//! The life-support actor's refill policy.
//!
//! On a fixed cadence the life-support actor asks the player for the
//! queue depth and, when the depth has fallen to the threshold, issues
//! a `Refill` so the queue never silently runs dry. The polling loop
//! itself (the timer, the channels) lives outside the library; the
//! policy decisions here are what it acts on.

use vstd::prelude::*;

use crate::player::{step_state, PlayerState};
use crate::protocol::{Command, Message, Origin};
use crate::shuffle::lemma_shuffle_len;

verus! {

/// The queue depth at or below which a refill is issued.
pub const REFILL_THRESHOLD: usize = 1;

/// How long the life-support actor sleeps between polls, in seconds.
pub const POLL_INTERVAL_SECS: u64 = 30;

/// The length query the life-support actor sends each cycle.
pub fn poll_query() -> (m: Message)
    ensures
        m == (Message { command: Command::QueryLength, origin: Origin::LifeSupport }),
{
    Message { command: Command::QueryLength, origin: Origin::LifeSupport }
}

/// Whether an observed queue depth demands a refill.
pub fn needs_refill(depth: usize) -> (r: bool)
    ensures
        r == (depth <= REFILL_THRESHOLD),
{
    depth <= REFILL_THRESHOLD
}

/// The message, if any, the life-support actor sends after observing a
/// queue depth: a `Refill` exactly when the depth is at or below the
/// threshold.
pub fn refill_decision(depth: usize) -> (r: Option<Message>)
    ensures
        depth <= REFILL_THRESHOLD ==> r == Some(
            Message { command: Command::Refill, origin: Origin::LifeSupport },
        ),
        depth > REFILL_THRESHOLD ==> r is None,
{
    if needs_refill(depth) {
        Some(Message { command: Command::Refill, origin: Origin::LifeSupport })
    } else {
        None
    }
}

/// Starvation prevention: when the known track set holds at least two
/// tracks and the observed depth is at or below the refill threshold,
/// the policy issues a refill, and processing that refill strictly
/// increases the queue depth — by exactly the size of the track set,
/// so the new depth is bounded by the old depth plus the total known
/// tracks.
pub proof fn lemma_starvation_prevention(s: PlayerState)
    requires
        s.tracks.len() >= 2,
        s.queue.len() <= REFILL_THRESHOLD,
    ensures
        s.queue.len() <= REFILL_THRESHOLD,
        step_state(s, Command::Refill).queue.len() > s.queue.len(),
        step_state(s, Command::Refill).queue.len() == s.queue.len() + s.tracks.len(),
{
    lemma_shuffle_len(s.tracks, s.rng);
}

} // verus!
