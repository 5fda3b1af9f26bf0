use light_audio_player::life_support::{needs_refill, poll_query, refill_decision};
use light_audio_player::player::Player;
use light_audio_player::protocol::{Command, Message, Origin, Reply};

fn tracks(names: &[&str]) -> Vec<String> {
    names.iter().map(|n| n.to_string()).collect()
}

fn msg(command: Command) -> Message {
    Message { command, origin: Origin::Input }
}

#[test]
fn startup_queues_every_track_and_plays() {
    let p = Player::new(tracks(&["a.mp3", "b.mp3", "c.mp3"]), 5);
    assert_eq!(p.queue_length(), 3);
    assert!(p.is_playing());
    assert!(!p.is_terminated());
}

#[test]
fn play_and_pause_are_idempotent() {
    let mut p = Player::new(tracks(&["a.mp3"]), 1);
    p.step(msg(Command::Play));
    let playing_once = p.is_playing();
    let len_once = p.queue_length();
    p.step(msg(Command::Play));
    assert_eq!(p.is_playing(), playing_once);
    assert_eq!(p.queue_length(), len_once);
    assert!(p.is_playing());

    p.step(msg(Command::Pause));
    assert!(!p.is_playing());
    p.step(msg(Command::Pause));
    assert!(!p.is_playing());
    assert_eq!(p.queue_length(), len_once);
}

#[test]
fn skip_drops_one_track_and_is_a_noop_on_empty() {
    let mut p = Player::new(tracks(&["a.mp3", "b.mp3"]), 3);
    assert_eq!(p.queue_length(), 2);
    p.step(msg(Command::Skip));
    assert_eq!(p.queue_length(), 1);
    p.step(msg(Command::Skip));
    assert_eq!(p.queue_length(), 0);
    p.step(msg(Command::Skip));
    assert_eq!(p.queue_length(), 0);
    assert!(!p.is_terminated());
}

#[test]
fn stop_clears_the_queue_and_terminates() {
    let mut p = Player::new(tracks(&["a.mp3", "b.mp3"]), 3);
    p.step(msg(Command::Stop));
    assert!(p.is_terminated());
    assert!(!p.is_playing());
    assert_eq!(p.queue_length(), 0);
}

#[test]
fn no_command_after_stop_is_processed() {
    let mut p = Player::new(tracks(&["a.mp3", "b.mp3"]), 3);
    let batch = vec![
        msg(Command::Skip),
        msg(Command::Stop),
        msg(Command::Play),
        msg(Command::QueryLength),
        msg(Command::Refill),
    ];
    let replies = p.run(&batch);
    assert!(p.is_terminated());
    assert!(!p.is_playing());
    assert_eq!(p.queue_length(), 0);
    assert!(replies.is_empty());
}

#[test]
fn volume_down_clamps_at_zero() {
    let mut p = Player::new(tracks(&["a.mp3"]), 1);
    p.set_volume_units(1);
    p.step(msg(Command::VolumeDown));
    assert_eq!(p.volume_units(), 0);
    p.step(msg(Command::VolumeDown));
    assert_eq!(p.volume_units(), 0);
}

#[test]
fn volume_floor_in_engine_scale() {
    // One adjustment unit stands for 0.05 of the engine's amplitude
    // scale: lowering the volume from 0.05 lands exactly on 0.0, never
    // below it.
    let mut p = Player::new(tracks(&["a.mp3"]), 1);
    p.set_volume_units(1);
    assert_eq!(p.volume_units() as f32 * 0.05, 0.05);
    p.step(msg(Command::VolumeDown));
    let amplitude = p.volume_units() as f32 * 0.05;
    assert_eq!(amplitude, 0.0);
    assert!(amplitude >= 0.0);
}

#[test]
fn volume_up_raises_one_unit_at_a_time() {
    let mut p = Player::new(tracks(&["a.mp3"]), 1);
    p.set_volume_units(0);
    for expected in 1..=100u64 {
        p.step(msg(Command::VolumeUp));
        assert_eq!(p.volume_units(), expected);
    }
}

#[test]
fn query_length_answers_on_the_asking_origin() {
    let mut p = Player::new(tracks(&["a.mp3", "b.mp3"]), 9);
    let reply = p.step(Message { command: Command::QueryLength, origin: Origin::LifeSupport });
    assert_eq!(reply, Some(Reply { origin: Origin::LifeSupport, length: 2 }));
    let reply = p.step(Message { command: Command::QueryLength, origin: Origin::Input });
    assert_eq!(reply, Some(Reply { origin: Origin::Input, length: 2 }));
}

#[test]
fn refill_grows_the_queue_by_the_track_set() {
    let mut p = Player::new(tracks(&["a.mp3", "b.mp3", "c.mp3"]), 2);
    p.step(msg(Command::Skip));
    p.step(msg(Command::Skip));
    assert_eq!(p.queue_length(), 1);
    p.step(Message { command: Command::Refill, origin: Origin::LifeSupport });
    assert_eq!(p.queue_length(), 4);
}

#[test]
fn life_support_scenario_prevents_starvation() {
    // A queue of two tracks; the poll sees depth above the threshold,
    // then a skip brings it to the threshold and the next poll issues a
    // refill, after which the depth strictly increases.
    let mut p = Player::new(tracks(&["a.mp3", "b.mp3"]), 4);

    let reply = p.step(poll_query()).expect("a length query is always answered");
    assert_eq!(reply.origin, Origin::LifeSupport);
    assert_eq!(reply.length, 2);
    assert_eq!(refill_decision(reply.length), None);

    p.step(msg(Command::Skip));
    let reply = p.step(poll_query()).expect("a length query is always answered");
    assert_eq!(reply.length, 1);
    assert!(needs_refill(reply.length));
    let refill = refill_decision(reply.length).expect("depth at the threshold demands a refill");
    assert_eq!(refill.command, Command::Refill);
    assert_eq!(refill.origin, Origin::LifeSupport);

    let depth_before = p.queue_length();
    p.step(refill);
    assert!(p.queue_length() > depth_before);
    assert_eq!(p.queue_length(), depth_before + 2);
}

#[test]
fn end_to_end_two_track_directory() {
    // The scenario of a directory holding two tracks: query, skip,
    // query again, then a life-support poll that triggers a refill.
    let mut p = Player::new(tracks(&["A.mp3", "B.mp3"]), 8);

    let reply = p.step(Message { command: Command::QueryLength, origin: Origin::Input });
    assert_eq!(reply.map(|r| r.length), Some(2));

    p.step(msg(Command::Skip));
    let reply = p.step(Message { command: Command::QueryLength, origin: Origin::Input });
    assert_eq!(reply.map(|r| r.length), Some(1));

    let reply = p.step(poll_query()).expect("a length query is always answered");
    let refill = refill_decision(reply.length).expect("depth 1 demands a refill");
    p.step(refill);
    assert!(p.queue_length() > 1);
}

#[test]
fn termination_is_absorbing() {
    let mut p = Player::new(tracks(&["a.mp3", "b.mp3"]), 3);
    let replies = p.run(&vec![msg(Command::Stop)]);
    assert!(replies.is_empty());
    assert!(p.is_terminated());
    let replies = p.run(&vec![msg(Command::Play), msg(Command::QueryLength)]);
    assert!(replies.is_empty());
    assert!(p.is_terminated());
    assert!(!p.is_playing());
    assert_eq!(p.queue_length(), 0);
}

#[test]
fn volume_down_descends_one_unit_at_a_time() {
    let mut p = Player::new(tracks(&["a.mp3"]), 1);
    p.set_volume_units(3);
    let mut last = p.volume_units();
    for _ in 0..6 {
        p.step(msg(Command::VolumeDown));
        let now = p.volume_units();
        assert!(now <= last);
        assert!(last == 0 || now == last - 1);
        last = now;
    }
    assert_eq!(last, 0);
}

#[test]
fn run_collects_replies_in_order() {
    let mut p = Player::new(tracks(&["a.mp3", "b.mp3"]), 6);
    let batch = vec![
        Message { command: Command::QueryLength, origin: Origin::Input },
        msg(Command::Skip),
        Message { command: Command::QueryLength, origin: Origin::LifeSupport },
    ];
    let replies = p.run(&batch);
    assert_eq!(
        replies,
        vec![
            Reply { origin: Origin::Input, length: 2 },
            Reply { origin: Origin::LifeSupport, length: 1 },
        ]
    );
}
