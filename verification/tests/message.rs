use mpris_widget::message::{
    listener_step, parse_stream_message, server_message, stop_message, Connection, ListenerStep,
    MAX_MESSAGE_LEN,
};
use mpris_widget::StreamMessage;

#[test]
fn message_build_reads_action_and_player() {
    let message = StreamMessage::build(String::from("select mpv")).unwrap();
    assert_eq!(message.action(), "select");
    assert_eq!(message.player(), "mpv");
    assert!(!message.is_empty());
}

#[test]
fn message_build_without_player_leaves_it_empty() {
    let message = StreamMessage::build(String::from("next")).unwrap();
    assert_eq!(message.action(), "next");
    assert_eq!(message.player(), "");
    let message = StreamMessage::build(String::from("next ")).unwrap();
    assert_eq!(message.action(), "next");
    assert_eq!(message.player(), "");
}

#[test]
fn message_build_ignores_further_words() {
    let message = StreamMessage::build(String::from("select mpv now")).unwrap();
    assert_eq!(message.action(), "select");
    assert_eq!(message.player(), "mpv");
}

#[test]
fn message_build_of_blank_text_is_empty() {
    for blank in ["", " ", "  \t\n", "\u{a0}"] {
        let message = StreamMessage::build(String::from(blank)).unwrap();
        assert!(message.is_empty(), "{:?}", blank);
        assert_eq!(message.player(), "");
    }
}

#[test]
fn message_build_takes_any_whitespace_between_words() {
    for text in ["next  mpv", " next mpv", "next mpv\n", "\tnext\t \tmpv \r\n", "next\nmpv"] {
        let message = StreamMessage::build(String::from(text)).unwrap();
        assert_eq!(message.action(), "next", "{:?}", text);
        assert_eq!(message.player(), "mpv", "{:?}", text);
    }
    let message = StreamMessage::build(String::from(" next")).unwrap();
    assert_eq!(message.action(), "next");
    assert_eq!(message.player(), "");
}

#[test]
fn server_message_joins_with_one_space() {
    let bytes = server_message(&String::from("select"), &String::from("mpv"));
    assert_eq!(bytes, b"select mpv".to_vec());
    let bytes = server_message(&String::from("play-pause"), &String::new());
    assert_eq!(bytes, b"play-pause ".to_vec());
    let bytes = server_message(&String::from("select"), &String::from("caf\u{e9}"));
    assert_eq!(bytes, "select caf\u{e9}".as_bytes().to_vec());
}

#[test]
fn message_survives_the_channel() {
    for (action, player) in [("select", "mpv"), ("next", ""), ("previous", "caf\u{e9}")] {
        let bytes = server_message(&String::from(action), &String::from(player));
        let message = parse_stream_message(&bytes).unwrap();
        assert_eq!(message.action(), action);
        assert_eq!(message.player(), player);
    }
}

#[test]
fn payload_that_is_not_utf8_holds_no_message() {
    assert!(parse_stream_message(&[0x73, 0xff, 0x20]).is_none());
    assert!(parse_stream_message(&[0xc3]).is_none());
    assert!(parse_stream_message(b"next").is_some());
    assert!(parse_stream_message(b"").is_some());
}

#[test]
fn listener_forwards_commands() {
    match listener_step(Connection::Payload(b"select mpv".to_vec())) {
        ListenerStep::Forward(message) => {
            assert_eq!(message.action(), "select");
            assert_eq!(message.player(), "mpv");
        }
        other => panic!("unexpected step {:?}", other),
    }
}

#[test]
fn listener_stops_on_the_stop_message() {
    assert_eq!(stop_message(), Vec::<u8>::new());
    assert!(matches!(listener_step(Connection::Payload(stop_message())), ListenerStep::Stop));
    assert!(matches!(listener_step(Connection::Payload(b" ".to_vec())), ListenerStep::Stop));
    assert!(matches!(listener_step(Connection::Payload(b" \n".to_vec())), ListenerStep::Stop));
}

#[test]
fn listener_decodes_a_payload_with_whitespace_around_it() {
    for payload in [&b" next"[..], &b"next\n"[..], &b"\t next \n"[..]] {
        match listener_step(Connection::Payload(payload.to_vec())) {
            ListenerStep::Forward(message) => {
                assert_eq!(message.action(), "next");
                assert_eq!(message.player(), "");
            }
            other => panic!("unexpected step {:?}", other),
        }
    }
}

#[test]
fn listener_survives_malformed_connections() {
    for _ in 0..3 {
        assert!(matches!(
            listener_step(Connection::Payload(vec![0xff, 0xfe])),
            ListenerStep::Ignore
        ));
        assert!(matches!(listener_step(Connection::Unreadable), ListenerStep::Ignore));
    }
}

#[test]
fn listener_stops_when_nothing_can_be_accepted() {
    assert!(matches!(listener_step(Connection::Refused), ListenerStep::Stop));
}

#[test]
fn message_buffer_holds_a_kilobyte() {
    assert_eq!(MAX_MESSAGE_LEN, 1024);
}
