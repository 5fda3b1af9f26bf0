use light_audio_player::input::{input_message, input_query, parse_command};
use light_audio_player::protocol::{Command, Message, Origin};

#[test]
fn recognizes_every_command() {
    assert_eq!(parse_command(b"p"), Some(Command::Play));
    assert_eq!(parse_command(b"="), Some(Command::Pause));
    assert_eq!(parse_command(b"s"), Some(Command::Skip));
    assert_eq!(parse_command(b"stop"), Some(Command::Stop));
    assert_eq!(parse_command(b"+"), Some(Command::VolumeUp));
    assert_eq!(parse_command(b"-"), Some(Command::VolumeDown));
    assert_eq!(parse_command(b"q"), Some(Command::QueryLength));
}

#[test]
fn rejects_unrecognized_lines() {
    assert_eq!(parse_command(b""), None);
    assert_eq!(parse_command(b"x"), None);
    assert_eq!(parse_command(b"pp"), None);
    assert_eq!(parse_command(b"play"), None);
    assert_eq!(parse_command(b"stop "), None);
    assert_eq!(parse_command(b"Stop"), None);
    assert_eq!(parse_command(b"st"), None);
    assert_eq!(parse_command(b"sto"), None);
    assert_eq!(parse_command(b"stopp"), None);
}

#[test]
fn input_messages_carry_input_origin() {
    assert_eq!(
        input_message(b"p"),
        Some(Message { command: Command::Play, origin: Origin::Input })
    );
    assert_eq!(
        input_message(b"q"),
        Some(Message { command: Command::QueryLength, origin: Origin::Input })
    );
    assert_eq!(input_message(b"nonsense"), None);
}

#[test]
fn input_query_is_a_length_query_from_input() {
    let m = input_query();
    assert_eq!(m.command, Command::QueryLength);
    assert_eq!(m.origin, Origin::Input);
}
