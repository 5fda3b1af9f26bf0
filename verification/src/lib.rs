//! A concurrent playback controller for a directory-backed audio queue.
//!
//! The heart of the library is a three-actor coordination protocol:
//! a player actor that owns the live track queue and playback state,
//! an input actor that turns interactive commands into typed messages,
//! and a life-support actor that polls queue depth and triggers an
//! automatic reshuffle-and-refill before the queue can run dry.
//!
//! This crate holds the verified core of that protocol: the message
//! types, the player's state machine, the command parser, the refill
//! policy, the reply routing, and the seeded shuffle. The unverified
//! shell around it (threads, channels, the terminal, the audio engine)
//! lives outside the library and only exchanges plain values with it.

pub mod input;
pub mod life_support;
pub mod player;
pub mod protocol;
pub mod reply_route;
pub mod shuffle;
