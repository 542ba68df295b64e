use ws_relay::bridge::Direction;
use ws_relay::message::{Frame, FrameError, Message};
use ws_relay::pump::{PumpEvent, PumpState, StopReason};
use ws_relay::session::{destination, source, Endpoint, RelaySession, SessionAction, Side};

fn client(connection: u64) -> Endpoint {
    Endpoint { connection, side: Side::Client }
}

fn backend(connection: u64) -> Endpoint {
    Endpoint { connection, side: Side::Backend }
}

#[test]
fn directions_have_a_source_and_a_destination() {
    assert_eq!(source(Direction::Forward), Side::Client);
    assert_eq!(destination(Direction::Forward), Side::Backend);
    assert_eq!(source(Direction::Return), Side::Backend);
    assert_eq!(destination(Direction::Return), Side::Client);
}

#[test]
fn new_session_runs_both_pumps() {
    let session = RelaySession::new(7);
    assert_eq!(session.connection(), 7);
    assert!(!session.is_over());
    assert_eq!(session.pump_state(Direction::Forward), PumpState::Receiving);
    assert_eq!(session.pump_state(Direction::Return), PumpState::Receiving);
}

#[test]
fn client_frames_go_to_the_backend_and_back() {
    let mut session = RelaySession::new(7);
    assert_eq!(
        session.step(Direction::Forward, PumpEvent::Received(Frame::Binary(vec![1, 2]))),
        SessionAction::Send(backend(7), Message::Binary(vec![1, 2]))
    );
    assert_eq!(
        session.step(Direction::Forward, PumpEvent::Sent),
        SessionAction::Receive(client(7))
    );
    assert_eq!(
        session.step(Direction::Return, PumpEvent::Received(Frame::Text(b"ok".to_vec()))),
        SessionAction::Send(client(7), Message::Text(String::from("ok")))
    );
    assert_eq!(
        session.step(Direction::Return, PumpEvent::Sent),
        SessionAction::Receive(backend(7))
    );
    assert!(!session.is_over());
}

#[test]
fn directions_do_not_wait_for_each_other() {
    let mut session = RelaySession::new(1);
    session.step(Direction::Forward, PumpEvent::Received(Frame::Binary(vec![1])));
    assert_eq!(session.pump_state(Direction::Forward), PumpState::Sending);
    // The backend is slow to take the message; the way back still works.
    assert_eq!(
        session.step(Direction::Return, PumpEvent::Received(Frame::Binary(vec![2]))),
        SessionAction::Send(client(1), Message::Binary(vec![2]))
    );
    assert_eq!(
        session.step(Direction::Return, PumpEvent::Sent),
        SessionAction::Receive(backend(1))
    );
    assert_eq!(session.pump_state(Direction::Forward), PumpState::Sending);
}

#[test]
fn backend_keepalive_is_dropped_in_a_session() {
    let mut session = RelaySession::new(1);
    assert_eq!(
        session.step(Direction::Return, PumpEvent::Received(Frame::Ping(vec![1]))),
        SessionAction::Receive(backend(1))
    );
    assert_eq!(
        session.step(Direction::Return, PumpEvent::Received(Frame::Pong(vec![1]))),
        SessionAction::Receive(backend(1))
    );
    assert_eq!(
        session.step(Direction::Forward, PumpEvent::Received(Frame::Ping(vec![1]))),
        SessionAction::Send(backend(1), Message::Ping(vec![1]))
    );
}

#[test]
fn first_pump_to_stop_cancels_the_other() {
    let mut session = RelaySession::new(3);
    session.step(Direction::Return, PumpEvent::Received(Frame::Binary(vec![1])));
    assert_eq!(
        session.step(Direction::Forward, PumpEvent::SourceEnded),
        SessionAction::End(StopReason::SourceEnded)
    );
    assert!(session.is_over());
    assert_eq!(
        session.pump_state(Direction::Forward),
        PumpState::Stopped(StopReason::SourceEnded)
    );
    assert_eq!(
        session.pump_state(Direction::Return),
        PumpState::Stopped(StopReason::Cancelled)
    );
    // The message that the return pump was sending is dropped.
    assert_eq!(
        session.step(Direction::Return, PumpEvent::Sent),
        SessionAction::End(StopReason::Cancelled)
    );
}

#[test]
fn invalid_text_ends_the_session_without_a_word_to_the_peer() {
    let mut session = RelaySession::new(3);
    assert_eq!(
        session.step(Direction::Forward, PumpEvent::Received(Frame::Text(vec![0xff]))),
        SessionAction::End(StopReason::BadFrame(FrameError::InvalidText))
    );
    assert!(session.is_over());
    assert_eq!(
        session.step(Direction::Forward, PumpEvent::Received(Frame::Text(b"ok".to_vec()))),
        SessionAction::End(StopReason::BadFrame(FrameError::InvalidText))
    );
    assert_eq!(
        session.step(Direction::Return, PumpEvent::Received(Frame::Text(b"ok".to_vec()))),
        SessionAction::End(StopReason::Cancelled)
    );
}

#[test]
fn close_ends_the_session_once_it_is_passed_on() {
    let mut session = RelaySession::new(3);
    assert_eq!(
        session.step(
            Direction::Forward,
            PumpEvent::Received(Frame::Close(Some(1000), Some(String::from("bye"))))
        ),
        SessionAction::Send(backend(3), Message::Close(Some(1000), Some(String::from("bye"))))
    );
    assert!(!session.is_over());
    assert_eq!(
        session.step(Direction::Forward, PumpEvent::Sent),
        SessionAction::End(StopReason::CloseRelayed)
    );
    assert!(session.is_over());
}

#[test]
fn failed_send_ends_the_session() {
    let mut session = RelaySession::new(3);
    session.step(Direction::Return, PumpEvent::Received(Frame::Binary(vec![1])));
    assert_eq!(
        session.step(Direction::Return, PumpEvent::SendFailed),
        SessionAction::End(StopReason::SendFailed)
    );
    assert_eq!(
        session.pump_state(Direction::Forward),
        PumpState::Stopped(StopReason::Cancelled)
    );
}

#[test]
fn event_out_of_turn_is_ignored_by_the_session() {
    let mut session = RelaySession::new(3);
    assert_eq!(session.step(Direction::Forward, PumpEvent::Sent), SessionAction::Ignore);
    assert!(!session.is_over());
}

#[test]
fn two_sessions_never_mix() {
    let mut a = RelaySession::new(1);
    let mut b = RelaySession::new(2);
    let from_a = a.step(Direction::Forward, PumpEvent::Received(Frame::Text(b"from a".to_vec())));
    let from_b = b.step(Direction::Forward, PumpEvent::Received(Frame::Text(b"from b".to_vec())));
    assert_eq!(from_a, SessionAction::Send(backend(1), Message::Text(String::from("from a"))));
    assert_eq!(from_b, SessionAction::Send(backend(2), Message::Text(String::from("from b"))));

    let to_a = a.step(Direction::Return, PumpEvent::Received(Frame::Binary(vec![0xa])));
    let to_b = b.step(Direction::Return, PumpEvent::Received(Frame::Binary(vec![0xb])));
    assert_eq!(to_a, SessionAction::Send(client(1), Message::Binary(vec![0xa])));
    assert_eq!(to_b, SessionAction::Send(client(2), Message::Binary(vec![0xb])));

    // The end of one session leaves the other running.
    a.step(Direction::Forward, PumpEvent::SendFailed);
    assert!(a.is_over());
    assert!(!b.is_over());
    assert_eq!(b.step(Direction::Forward, PumpEvent::Sent), SessionAction::Receive(client(2)));
}
