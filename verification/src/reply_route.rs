//! Reply routing: one single-purpose slot per asking actor.
//!
//! Each `QueryLength` answer travels back on the reply channel of the
//! origin that asked, never on the other one. The slots here model the
//! receiving ends: each holds at most one outstanding answer, which is
//! all the protocol permits per origin. The `Player` origin has no
//! registered channel, so delivering to it is a silent no-op.

use vstd::prelude::*;

use crate::player::{step_reply, PlayerState};
use crate::protocol::{Command, Message, Origin, Reply};

verus! {

/// The receiving ends of the two reply channels: at most one pending
/// answer per origin.
#[verifier::ext_equal]
pub struct ReplySlots {
    /// The answer pending for the input actor, if any.
    pub input_reply: Option<usize>,
    /// The answer pending for the life-support actor, if any.
    pub life_support_reply: Option<usize>,
}

impl ReplySlots {
    /// Two empty reply slots, as wired at system start.
    pub fn new() -> (r: ReplySlots)
        ensures
            r.input_reply is None,
            r.life_support_reply is None,
    {
        ReplySlots { input_reply: None, life_support_reply: None }
    }

    /// Delivers a reply on the channel its origin selects, and on no
    /// other: the other origin's slot is left untouched, and an origin
    /// with no registered channel is a silent no-op.
    pub fn deliver(&mut self, reply: Reply)
        ensures
            *final(self) == deliver_spec(*old(self), reply),
            reply.origin == Origin::Input ==> final(self).input_reply == Some(reply.length)
                && final(self).life_support_reply == old(self).life_support_reply,
            reply.origin == Origin::LifeSupport ==> final(self).life_support_reply == Some(
                reply.length,
            ) && final(self).input_reply == old(self).input_reply,
            reply.origin == Origin::Player ==> final(self).input_reply == old(self).input_reply
                && final(self).life_support_reply == old(self).life_support_reply,
    {
        match reply.origin {
            Origin::Input => {
                self.input_reply = Some(reply.length);
            },
            Origin::LifeSupport => {
                self.life_support_reply = Some(reply.length);
            },
            Origin::Player => {},
        }
        proof {
            assert(*self =~= deliver_spec(*old(self), reply));
        }
    }

    /// Takes the answer pending for the input actor, leaving its slot
    /// empty; the life-support slot is untouched.
    pub fn take_input_reply(&mut self) -> (r: Option<usize>)
        ensures
            r == old(self).input_reply,
            final(self).input_reply is None,
            final(self).life_support_reply == old(self).life_support_reply,
    {
        let r = self.input_reply;
        self.input_reply = None;
        r
    }

    /// Takes the answer pending for the life-support actor, leaving its
    /// slot empty; the input slot is untouched.
    pub fn take_life_support_reply(&mut self) -> (r: Option<usize>)
        ensures
            r == old(self).life_support_reply,
            final(self).life_support_reply is None,
            final(self).input_reply == old(self).input_reply,
    {
        let r = self.life_support_reply;
        self.life_support_reply = None;
        r
    }
}

/// How delivering one reply transforms the slots, as a function of the
/// old slots.
pub open spec fn deliver_spec(s: ReplySlots, r: Reply) -> ReplySlots {
    match r.origin {
        Origin::Input => ReplySlots { input_reply: Some(r.length), ..s },
        Origin::LifeSupport => ReplySlots { life_support_reply: Some(r.length), ..s },
        Origin::Player => s,
    }
}

/// Origin isolation: a reply tagged `LifeSupport` never lands in the
/// input actor's slot, and a reply tagged `Input` never lands in the
/// life-support actor's slot.
pub proof fn lemma_origin_isolation(s: ReplySlots, r: Reply)
    ensures
        r.origin == Origin::LifeSupport ==> deliver_spec(s, r).input_reply == s.input_reply,
        r.origin == Origin::Input ==> deliver_spec(s, r).life_support_reply
            == s.life_support_reply,
{
}

/// End-to-end origin isolation: the reply a `QueryLength` elicits
/// carries the asking origin unchanged, and delivering it can only
/// land in that origin's slot — a life-support query never reaches the
/// input actor's slot, and an input query never reaches the
/// life-support actor's slot.
pub proof fn lemma_query_routes_to_origin(p: PlayerState, m: Message, s: ReplySlots)
    requires
        m.command == Command::QueryLength,
    ensures
        step_reply(p, m) is Some,
        step_reply(p, m).unwrap().origin == m.origin,
        m.origin == Origin::LifeSupport ==> deliver_spec(s, step_reply(p, m).unwrap()).input_reply
            == s.input_reply,
        m.origin == Origin::Input ==> deliver_spec(
            s,
            step_reply(p, m).unwrap(),
        ).life_support_reply == s.life_support_reply,
{
}

} // verus!
