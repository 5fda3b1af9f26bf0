//! The player actor's state machine.
//!
//! The player actor is the exclusive owner of playback state: the full
//! known track set, the queue of pending tracks, the playing flag, the
//! volume, and the termination flag. It is the sole consumer of the
//! command channel; [`Player::step`] processes one received message and
//! [`Player::run`] processes a whole batch, stopping after `Stop`.
//!
//! Volume is counted in whole adjustment units (the fixed step of the
//! volume commands); the shell that talks to the audio engine scales a
//! unit count to the engine's amplitude range.

use vstd::prelude::*;

use crate::protocol::{Command, Message, Origin, Reply};
use crate::shuffle::{next_seed, shuffle, shuffle_spec};

verus! {

/// The volume, in adjustment units, that a freshly started player uses.
pub const INITIAL_VOLUME_UNITS: u64 = 20;

/// The mathematical state of the player actor.
#[verifier::ext_equal]
pub ghost struct PlayerState {
    /// The full known track set, fixed at startup.
    pub tracks: Seq<String>,
    /// The pending tracks, in playback order; the head plays next.
    pub queue: Seq<String>,
    /// Whether playback is currently running.
    pub playing: bool,
    /// The volume, in adjustment units.
    pub volume: u64,
    /// Whether a `Stop` has been processed; terminated is absorbing.
    pub terminated: bool,
    /// The pseudo-random generator state for the next refill shuffle.
    pub rng: u64,
}

/// The state a player starts in: the track set shuffled once into the
/// queue, playback running, the volume at its initial setting.
pub open spec fn start_state(tracks: Seq<String>, seed: u64) -> PlayerState {
    PlayerState {
        tracks: tracks,
        queue: shuffle_spec(tracks, seed),
        playing: true,
        volume: INITIAL_VOLUME_UNITS,
        terminated: false,
        rng: next_seed(seed),
    }
}

/// How one command transforms the player state.
pub open spec fn step_state(s: PlayerState, c: Command) -> PlayerState {
    match c {
        Command::Play => PlayerState { playing: true, ..s },
        Command::Pause => PlayerState { playing: false, ..s },
        Command::Stop => PlayerState {
            playing: false,
            queue: Seq::empty(),
            terminated: true,
            ..s
        },
        Command::Skip => if s.queue.len() > 0 {
            PlayerState { queue: s.queue.drop_first(), ..s }
        } else {
            s
        },
        Command::VolumeDown => PlayerState {
            volume: if s.volume > 0 {
                (s.volume - 1) as u64
            } else {
                0
            },
            ..s
        },
        Command::VolumeUp => PlayerState {
            volume: if s.volume < u64::MAX {
                (s.volume + 1) as u64
            } else {
                u64::MAX
            },
            ..s
        },
        Command::Refill => PlayerState {
            queue: s.queue + shuffle_spec(s.tracks, s.rng),
            rng: next_seed(s.rng),
            ..s
        },
        Command::QueryLength => s,
    }
}

/// The reply, if any, that one message elicits: only `QueryLength`
/// answers, with the pending-track count, tagged with the asking
/// origin.
pub open spec fn step_reply(s: PlayerState, m: Message) -> Option<Reply> {
    if m.command == Command::QueryLength {
        Some(Reply { origin: m.origin, length: s.queue.len() as usize })
    } else {
        None
    }
}

/// The state after processing a batch of messages in order, stopping
/// as soon as the state is terminated.
pub open spec fn run_state(s: PlayerState, msgs: Seq<Message>) -> PlayerState
    decreases msgs.len(),
{
    if msgs.len() == 0 || s.terminated {
        s
    } else {
        run_state(step_state(s, msgs[0].command), msgs.drop_first())
    }
}

/// The replies emitted while processing a batch of messages in order,
/// stopping as soon as the state is terminated.
pub open spec fn run_replies(s: PlayerState, msgs: Seq<Message>) -> Seq<Reply>
    decreases msgs.len(),
{
    if msgs.len() == 0 || s.terminated {
        Seq::empty()
    } else {
        let rest = run_replies(step_state(s, msgs[0].command), msgs.drop_first());
        match step_reply(s, msgs[0]) {
            Some(rep) => seq![rep] + rest,
            None => rest,
        }
    }
}

/// The player actor's exclusive state: the track set, the pending
/// queue, and the transport flags. Nothing outside the player mutates
/// any of it.
pub struct Player {
    tracks: Vec<String>,
    queue: Vec<String>,
    playing: bool,
    volume: u64,
    terminated: bool,
    rng: u64,
}

impl View for Player {
    type V = PlayerState;

    closed spec fn view(&self) -> PlayerState {
        PlayerState {
            tracks: self.tracks@,
            queue: self.queue@,
            playing: self.playing,
            volume: self.volume,
            terminated: self.terminated,
            rng: self.rng,
        }
    }
}

/// Copies a track list, element by element.
fn clone_tracks(v: &Vec<String>) -> (r: Vec<String>)
    ensures
        r@ == v@,
{
    let mut r: Vec<String> = Vec::new();
    let mut i: usize = 0;
    while i < v.len()
        invariant
            i <= v.len(),
            r@ == v@.subrange(0, i as int),
        decreases v.len() - i,
    {
        r.push(v[i].clone());
        i = i + 1;
        proof {
            assert(r@ =~= v@.subrange(0, i as int));
        }
    }
    proof {
        assert(r@ =~= v@);
    }
    r
}

impl Player {
    /// Starts a player: shuffles the full track set with the given seed
    /// and queues every track in that order, ready to play.
    pub fn new(tracks: Vec<String>, seed: u64) -> (p: Player)
        ensures
            p@ == start_state(tracks@, seed),
    {
        let ghost t = tracks@;
        let shuffled = shuffle(clone_tracks(&tracks), seed);
        let rng = crate::shuffle::advance_seed(seed);
        let p = Player {
            tracks,
            queue: shuffled,
            playing: true,
            volume: INITIAL_VOLUME_UNITS,
            terminated: false,
            rng,
        };
        proof {
            assert(p@ =~= start_state(t, seed));
        }
        p
    }

    /// The count of pending tracks.
    pub fn queue_length(&self) -> (n: usize)
        ensures
            n == self@.queue.len(),
    {
        self.queue.len()
    }

    /// Whether playback is currently running.
    pub fn is_playing(&self) -> (b: bool)
        ensures
            b == self@.playing,
    {
        self.playing
    }

    /// The volume, in adjustment units.
    pub fn volume_units(&self) -> (v: u64)
        ensures
            v == self@.volume,
    {
        self.volume
    }

    /// Whether a `Stop` has been processed.
    pub fn is_terminated(&self) -> (b: bool)
        ensures
            b == self@.terminated,
    {
        self.terminated
    }

    /// Sets the volume outright, in adjustment units, as the engine's
    /// volume setter does.
    pub fn set_volume_units(&mut self, v: u64)
        ensures
            final(self)@ == (PlayerState { volume: v, ..old(self)@ }),
    {
        self.volume = v;
        proof {
            assert(self@ =~= (PlayerState { volume: v, ..old(self)@ }));
        }
    }

    /// Processes one received message: mutates the state as the command
    /// demands and returns the reply the message elicits, if any.
    pub fn step(&mut self, msg: Message) -> (reply: Option<Reply>)
        ensures
            final(self)@ == step_state(old(self)@, msg.command),
            reply == step_reply(old(self)@, msg),
    {
        let ghost pre = self@;
        let reply: Option<Reply> = match msg.command {
            Command::Play => {
                self.playing = true;
                None
            },
            Command::Pause => {
                self.playing = false;
                None
            },
            Command::Stop => {
                self.playing = false;
                self.queue.clear();
                self.terminated = true;
                None
            },
            Command::Skip => {
                if self.queue.len() > 0 {
                    let _dropped = self.queue.remove(0);
                    proof {
                        assert(self.queue@ =~= pre.queue.drop_first());
                    }
                }
                None
            },
            Command::VolumeDown => {
                if self.volume > 0 {
                    self.volume = self.volume - 1;
                }
                None
            },
            Command::VolumeUp => {
                if self.volume < u64::MAX {
                    self.volume = self.volume + 1;
                }
                None
            },
            Command::Refill => {
                let mut fresh = shuffle(clone_tracks(&self.tracks), self.rng);
                self.queue.append(&mut fresh);
                self.rng = crate::shuffle::advance_seed(self.rng);
                None
            },
            Command::QueryLength => Some(
                Reply { origin: msg.origin, length: self.queue.len() },
            ),
        };
        proof {
            assert(self@ =~= step_state(pre, msg.command));
        }
        reply
    }

    /// Processes a batch of messages in order, exactly as the actor's
    /// receive loop would: each message goes through [`Player::step`],
    /// and the loop exits right after the message that terminates the
    /// player, leaving any later messages unprocessed. Returns the
    /// replies emitted, in order.
    pub fn run(&mut self, msgs: &Vec<Message>) -> (replies: Vec<Reply>)
        ensures
            final(self)@ == run_state(old(self)@, msgs@),
            replies@ == run_replies(old(self)@, msgs@),
    {
        let ghost pre = self@;
        let mut replies: Vec<Reply> = Vec::new();
        let mut i: usize = 0;
        proof {
            assert(msgs@.skip(0) =~= msgs@);
            assert(Seq::<Reply>::empty() + run_replies(self@, msgs@) =~= run_replies(self@, msgs@));
        }
        while i < msgs.len() && !self.is_terminated()
            invariant
                i <= msgs@.len(),
                run_state(pre, msgs@) == run_state(self@, msgs@.skip(i as int)),
                run_replies(pre, msgs@) == replies@ + run_replies(self@, msgs@.skip(i as int)),
            decreases msgs@.len() - i,
        {
            let ghost mid = self@;
            let ghost remaining = msgs@.skip(i as int);
            let reply = self.step(msgs[i]);
            if let Some(rep) = reply {
                replies.push(rep);
            }
            i = i + 1;
            proof {
                assert(remaining[0] == msgs@[i - 1]);
                assert(remaining.drop_first() =~= msgs@.skip(i as int));
                assert(run_state(mid, remaining) == run_state(self@, msgs@.skip(i as int)));
                match step_reply(mid, msgs@[i - 1]) {
                    Some(rep) => {
                        assert(replies@ + run_replies(self@, msgs@.skip(i as int)) =~= (
                        replies@.drop_last() + (seq![rep] + run_replies(
                            self@,
                            msgs@.skip(i as int),
                        ))));
                    },
                    None => {},
                }
            }
        }
        proof {
            if i == msgs@.len() {
                assert(msgs@.skip(i as int) =~= Seq::<Message>::empty());
            }
            assert(run_state(self@, msgs@.skip(i as int)) == self@);
            assert(run_replies(self@, msgs@.skip(i as int)) =~= Seq::<Reply>::empty());
            assert(replies@ =~= replies@ + Seq::<Reply>::empty());
        }
        replies
    }
}

/// Processing a command never un-terminates the player, and `Stop` is
/// the only command that terminates it.
pub proof fn lemma_step_termination(s: PlayerState, c: Command)
    ensures
        step_state(s, c).terminated == (s.terminated || c == Command::Stop),
{
}

/// Once `Stop` is processed, the run halts: messages after the first
/// `Stop` are never processed, so the run of the whole batch equals the
/// run of the prefix that ends at that `Stop`, and it ends terminated.
pub proof fn lemma_stop_halts_run(s: PlayerState, msgs: Seq<Message>, i: int)
    requires
        0 <= i < msgs.len(),
        msgs[i].command == Command::Stop,
        forall|j: int| 0 <= j < i ==> msgs[j].command != Command::Stop,
    ensures
        run_state(s, msgs) == run_state(s, msgs.take(i + 1)),
        run_replies(s, msgs) == run_replies(s, msgs.take(i + 1)),
        run_state(s, msgs).terminated,
    decreases msgs.len(),
{
    if s.terminated {
        assert(run_state(s, msgs.take(i + 1)) == s);
    } else if i == 0 {
        let s1 = step_state(s, msgs[0].command);
        assert(s1.terminated);
        assert(run_state(s1, msgs.drop_first()) == s1);
        assert(run_replies(s1, msgs.drop_first()) =~= Seq::<Reply>::empty());
        let pfx = msgs.take(1);
        assert(pfx[0] == msgs[0]);
        assert(run_state(s1, pfx.drop_first()) == s1);
        assert(run_replies(s1, pfx.drop_first()) =~= Seq::<Reply>::empty());
    } else {
        let s1 = step_state(s, msgs[0].command);
        let rest = msgs.drop_first();
        assert(rest[i - 1].command == Command::Stop);
        assert(forall|j: int| 0 <= j < i - 1 ==> rest[j] == msgs[j + 1]);
        lemma_stop_halts_run(s1, rest, i - 1);
        let pfx = msgs.take(i + 1);
        assert(pfx[0] == msgs[0]);
        assert(pfx.drop_first() =~= rest.take(i));
        assert(run_state(s, pfx) == run_state(s1, rest.take(i)));
    }
}

/// `Play` while already playing leaves the player state unchanged.
pub proof fn lemma_play_idempotent(s: PlayerState)
    requires
        s.playing,
    ensures
        step_state(s, Command::Play) == s,
{
    assert(step_state(s, Command::Play) =~= s);
}

/// `Pause` while already paused leaves the player state unchanged.
pub proof fn lemma_pause_idempotent(s: PlayerState)
    requires
        !s.playing,
    ensures
        step_state(s, Command::Pause) == s,
{
    assert(step_state(s, Command::Pause) =~= s);
}

/// A batch of `n` messages that all carry the given command.
pub open spec fn repeated(c: Command, o: Origin, n: nat) -> Seq<Message> {
    Seq::new(n, |i: int| Message { command: c, origin: o })
}

/// Repeated `VolumeDown` drives the volume monotonically toward zero,
/// one unit per message, and clamps it there: it never goes below zero
/// and never moves once zero is reached.
pub proof fn lemma_repeated_volume_down(s: PlayerState, o: Origin, n: nat)
    requires
        !s.terminated,
    ensures
        run_state(s, repeated(Command::VolumeDown, o, n)).volume == if s.volume >= n {
            s.volume - n
        } else {
            0
        },
        run_state(s, repeated(Command::VolumeDown, o, n)) == (PlayerState {
            volume: run_state(s, repeated(Command::VolumeDown, o, n)).volume,
            ..s
        }),
    decreases n,
{
    let batch = repeated(Command::VolumeDown, o, n);
    if n == 0 {
        assert(run_state(s, batch) == s);
        assert(s =~= (PlayerState { volume: s.volume, ..s }));
    } else {
        let s1 = step_state(s, Command::VolumeDown);
        lemma_repeated_volume_down(s1, o, (n - 1) as nat);
        assert(batch.drop_first() =~= repeated(Command::VolumeDown, o, (n - 1) as nat));
        assert(run_state(s1, repeated(Command::VolumeDown, o, (n - 1) as nat)) =~= (PlayerState {
            volume: run_state(s, batch).volume,
            ..s
        }));
    }
}

/// Repeated `VolumeUp` raises the volume strictly, by exactly one unit
/// per message, without an upper bound short of the machine word.
pub proof fn lemma_repeated_volume_up(s: PlayerState, o: Origin, n: nat)
    requires
        !s.terminated,
        s.volume + n <= u64::MAX,
    ensures
        run_state(s, repeated(Command::VolumeUp, o, n)).volume == s.volume + n,
        run_state(s, repeated(Command::VolumeUp, o, n)) == (PlayerState {
            volume: (s.volume + n) as u64,
            ..s
        }),
    decreases n,
{
    let batch = repeated(Command::VolumeUp, o, n);
    if n == 0 {
        assert(run_state(s, batch) == s);
        assert(s =~= (PlayerState { volume: (s.volume + 0) as u64, ..s }));
    } else {
        let s1 = step_state(s, Command::VolumeUp);
        lemma_repeated_volume_up(s1, o, (n - 1) as nat);
        assert(batch.drop_first() =~= repeated(Command::VolumeUp, o, (n - 1) as nat));
        assert(run_state(s1, repeated(Command::VolumeUp, o, (n - 1) as nat)) =~= (PlayerState {
            volume: (s.volume + n) as u64,
            ..s
        }));
    }
}

/// One `VolumeDown` never raises the volume and never drives it below
/// zero; away from zero it lowers it by exactly one unit.
pub proof fn lemma_volume_down_step(s: PlayerState)
    ensures
        step_state(s, Command::VolumeDown).volume <= s.volume,
        s.volume > 0 ==> step_state(s, Command::VolumeDown).volume == s.volume - 1,
        s.volume == 0 ==> step_state(s, Command::VolumeDown).volume == 0,
{
}

/// One `VolumeUp` raises the volume by exactly one unit whenever the
/// machine word allows it.
pub proof fn lemma_volume_up_step(s: PlayerState)
    requires
        s.volume < u64::MAX,
    ensures
        step_state(s, Command::VolumeUp).volume == s.volume + 1,
{
}

} // verus!
