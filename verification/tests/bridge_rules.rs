use ws_relay::bridge::{decide, into_message, Decision, Direction};
use ws_relay::message::{close_payload, Frame, FrameError, Message, NORMAL_CLOSURE};

#[test]
fn valid_text_becomes_a_text_message() {
    assert_eq!(
        into_message(Frame::Text(b"hello".to_vec())),
        Ok(Message::Text(String::from("hello")))
    );
    assert_eq!(
        into_message(Frame::Text("grüße, 世界 🦀".as_bytes().to_vec())),
        Ok(Message::Text(String::from("grüße, 世界 🦀")))
    );
    assert_eq!(into_message(Frame::Text(Vec::new())), Ok(Message::Text(String::new())));
}

#[test]
fn invalid_text_has_no_message() {
    for payload in [
        vec![0xffu8],
        vec![0x68, 0x69, 0x80],
        vec![0xc3],
        vec![0xc0, 0xaf],
        vec![0xed, 0xa0, 0x80],
        vec![0xf4, 0x90, 0x80, 0x80],
        vec![0xe2, 0x82],
    ] {
        assert_eq!(into_message(Frame::Text(payload)), Err(FrameError::InvalidText));
    }
}

#[test]
fn binary_and_keepalive_payloads_are_kept_as_they_are() {
    assert_eq!(
        into_message(Frame::Binary(vec![0x01, 0x02])),
        Ok(Message::Binary(vec![0x01, 0x02]))
    );
    assert_eq!(
        into_message(Frame::Binary(vec![0xff, 0xfe, 0x00])),
        Ok(Message::Binary(vec![0xff, 0xfe, 0x00]))
    );
    assert_eq!(into_message(Frame::Ping(vec![9, 8])), Ok(Message::Ping(vec![9, 8])));
    assert_eq!(into_message(Frame::Pong(vec![7])), Ok(Message::Pong(vec![7])));
    assert_eq!(into_message(Frame::Binary(Vec::new())), Ok(Message::Binary(Vec::new())));
}

#[test]
fn close_keeps_code_and_reason() {
    assert_eq!(
        into_message(Frame::Close(Some(1000), Some(String::from("bye")))),
        Ok(Message::Close(Some(1000), Some(String::from("bye"))))
    );
    assert_eq!(into_message(Frame::Close(None, None)), Ok(Message::Close(None, None)));
    assert_eq!(
        into_message(Frame::Close(Some(4999), None)),
        Ok(Message::Close(Some(4999), None))
    );
    assert_eq!(
        into_message(Frame::Close(None, Some(String::from("why")))),
        Ok(Message::Close(None, Some(String::from("why"))))
    );
}

#[test]
fn unknown_frame_kind_has_no_message() {
    assert_eq!(into_message(Frame::Other), Err(FrameError::Unsupported));
}

#[test]
fn forward_direction_passes_everything_on() {
    let d = Direction::Forward;
    assert_eq!(
        decide(d, Frame::Text(b"a".to_vec())),
        Decision::Send(Message::Text(String::from("a")))
    );
    assert_eq!(decide(d, Frame::Binary(vec![1])), Decision::Send(Message::Binary(vec![1])));
    assert_eq!(decide(d, Frame::Ping(vec![2])), Decision::Send(Message::Ping(vec![2])));
    assert_eq!(decide(d, Frame::Pong(vec![3])), Decision::Send(Message::Pong(vec![3])));
}

#[test]
fn return_direction_drops_keepalive() {
    let d = Direction::Return;
    assert_eq!(decide(d, Frame::Ping(vec![2])), Decision::Drop);
    assert_eq!(decide(d, Frame::Pong(vec![3])), Decision::Drop);
    assert_eq!(decide(d, Frame::Ping(Vec::new())), Decision::Drop);
    assert_eq!(
        decide(d, Frame::Text(b"a".to_vec())),
        Decision::Send(Message::Text(String::from("a")))
    );
    assert_eq!(decide(d, Frame::Binary(vec![1])), Decision::Send(Message::Binary(vec![1])));
}

#[test]
fn close_is_sent_and_is_the_last() {
    for d in [Direction::Forward, Direction::Return] {
        assert_eq!(
            decide(d, Frame::Close(Some(1000), Some(String::from("bye")))),
            Decision::SendAndStop(Message::Close(Some(1000), Some(String::from("bye"))))
        );
        assert_eq!(
            decide(d, Frame::Close(None, None)),
            Decision::SendAndStop(Message::Close(None, None))
        );
    }
}

#[test]
fn frames_without_a_message_stop_the_pump() {
    for d in [Direction::Forward, Direction::Return] {
        assert_eq!(decide(d, Frame::Text(vec![0xff])), Decision::Stop(FrameError::InvalidText));
        assert_eq!(decide(d, Frame::Other), Decision::Stop(FrameError::Unsupported));
    }
}

#[test]
fn close_messages_know_themselves() {
    assert!(Message::Close(None, None).is_close());
    assert!(Message::Close(Some(1001), Some(String::from("x"))).is_close());
    assert!(!Message::Text(String::from("close")).is_close());
    assert!(!Message::Binary(vec![0x88]).is_close());
    assert!(!Message::Ping(Vec::new()).is_close());
    assert!(!Message::Pong(Vec::new()).is_close());
}

#[test]
fn close_payload_on_the_wire() {
    assert_eq!(close_payload(None, None), None);
    assert_eq!(
        close_payload(Some(1000), Some(String::from("bye"))),
        Some((1000, String::from("bye")))
    );
    assert_eq!(
        close_payload(Some(1001), Some(String::from("shutting down"))),
        Some((1001, String::from("shutting down")))
    );
    assert_eq!(close_payload(Some(4000), None), Some((4000, String::new())));
    assert_eq!(close_payload(None, Some(String::from("why"))), Some((1000, String::from("why"))));
    assert_eq!(close_payload(None, Some(String::new())), Some((1000, String::new())));
    assert_eq!(NORMAL_CLOSURE, 1000);
}
