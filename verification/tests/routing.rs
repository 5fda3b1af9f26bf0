use light_audio_player::protocol::{Origin, Reply};
use light_audio_player::reply_route::ReplySlots;

#[test]
fn life_support_reply_never_reaches_the_input_slot() {
    let mut slots = ReplySlots::new();
    slots.deliver(Reply { origin: Origin::LifeSupport, length: 7 });
    let mut probe = slots;
    assert_eq!(probe.take_input_reply(), None);
    assert_eq!(probe.take_life_support_reply(), Some(7));
}

#[test]
fn input_reply_never_reaches_the_life_support_slot() {
    let mut slots = ReplySlots::new();
    slots.deliver(Reply { origin: Origin::Input, length: 3 });
    let mut probe = slots;
    assert_eq!(probe.take_life_support_reply(), None);
    assert_eq!(probe.take_input_reply(), Some(3));
}

#[test]
fn player_origin_has_no_registered_channel() {
    let mut slots = ReplySlots::new();
    slots.deliver(Reply { origin: Origin::Player, length: 9 });
    let mut probe = slots;
    assert_eq!(probe.take_input_reply(), None);
    assert_eq!(probe.take_life_support_reply(), None);
}

#[test]
fn taking_a_reply_empties_only_its_own_slot() {
    let mut slots = ReplySlots::new();
    slots.deliver(Reply { origin: Origin::Input, length: 1 });
    slots.deliver(Reply { origin: Origin::LifeSupport, length: 2 });
    assert_eq!(slots.take_input_reply(), Some(1));
    assert_eq!(slots.take_input_reply(), None);
    assert_eq!(slots.take_life_support_reply(), Some(2));
    assert_eq!(slots.take_life_support_reply(), None);
}
