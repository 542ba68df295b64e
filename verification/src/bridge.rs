//! The message bridge, one direction at a time: what becomes of each frame
//! that an endpoint delivers, and the pump that moves frames one way.

use crate::message::{Frame, FrameError, FrameView, Message, MessageView};
use vstd::prelude::*;
use vstd::utf8::*;

verus! {

/// One of the two directions of a relay session.
#[derive(Debug, Clone, Copy, PartialEq, Eq, Structural)]
pub enum Direction {
    /// From the client to the backend.
    Forward,
    /// From the backend to the client.
    Return,
}

/// What a pump does with one frame that its source delivered.
#[derive(Debug, Clone, PartialEq, Eq)]
pub enum Decision {
    /// Send the message and go on receiving.
    Send(Message),
    /// Send the message, then stop: the frame closed the connection.
    SendAndStop(Message),
    /// Send nothing and go on receiving.
    Drop,
    /// Send nothing and stop.
    Stop(FrameError),
}

pub enum DecisionView {
    Send(MessageView),
    SendAndStop(MessageView),
    Drop,
    Stop(FrameError),
}

impl View for Decision {
    type V = DecisionView;

    open spec fn view(&self) -> DecisionView {
        match *self {
            Decision::Send(message) => DecisionView::Send(message@),
            Decision::SendAndStop(message) => DecisionView::SendAndStop(message@),
            Decision::Drop => DecisionView::Drop,
            Decision::Stop(error) => DecisionView::Stop(error),
        }
    }
}

/// The message that carries a frame's content: the same kind and payload,
/// the text of a text frame decoded. There is none for a text frame that is
/// not UTF-8 and none for a frame kind outside the message model.
pub open spec fn message_of(frame: FrameView) -> Result<MessageView, FrameError> {
    match frame {
        FrameView::Text(payload) => if valid_utf8(payload) {
            Ok(MessageView::Text(decode_utf8(payload)))
        } else {
            Err(FrameError::InvalidText)
        },
        FrameView::Binary(payload) => Ok(MessageView::Binary(payload)),
        FrameView::Ping(payload) => Ok(MessageView::Ping(payload)),
        FrameView::Pong(payload) => Ok(MessageView::Pong(payload)),
        FrameView::Close(code, reason) => Ok(MessageView::Close(code, reason)),
        FrameView::Other => Err(FrameError::Unsupported),
    }
}

/// The rule of the bridge for one frame. A frame without a message stops the
/// pump. A close is passed on with its code and reason, and is the last thing
/// passed on. Pings and pongs of the backend are not passed on to the client.
/// Everything else is passed on as it is.
pub open spec fn decision(direction: Direction, frame: FrameView) -> DecisionView {
    match message_of(frame) {
        Err(error) => DecisionView::Stop(error),
        Ok(message) => if message is Close {
            DecisionView::SendAndStop(message)
        } else if direction == Direction::Return && message.is_keepalive() {
            DecisionView::Drop
        } else {
            DecisionView::Send(message)
        },
    }
}

/// `String::from_utf8`: the bytes become a string exactly when they are valid
/// UTF-8, and the string then consists of those bytes.
#[verifier::external_body]
fn text_of(payload: Vec<u8>) -> (text: Option<String>)
    ensures
        text is Some <==> valid_utf8(payload@),
        text matches Some(s) ==> encode_utf8(s@) == payload@,
{
    match String::from_utf8(payload) {
        Ok(text) => Some(text),
        Err(_) => None,
    }
}

/// Turns a delivered frame into the message that carries its content.
pub fn into_message(frame: Frame) -> (message: Result<Message, FrameError>)
    ensures
        match message {
            Ok(m) => message_of(frame@) == Ok::<MessageView, FrameError>(m@),
            Err(error) => message_of(frame@) == Err::<MessageView, FrameError>(error),
        },
{
    match frame {
        Frame::Text(payload) => match text_of(payload) {
            Some(text) => {
                proof {
                    encode_utf8_decode_utf8(text@);
                }
                Ok(Message::Text(text))
            },
            None => Err(FrameError::InvalidText),
        },
        Frame::Binary(payload) => Ok(Message::Binary(payload)),
        Frame::Ping(payload) => Ok(Message::Ping(payload)),
        Frame::Pong(payload) => Ok(Message::Pong(payload)),
        Frame::Close(code, reason) => Ok(Message::Close(code, reason)),
        Frame::Other => Err(FrameError::Unsupported),
    }
}

/// Decides what the pump of `direction` does with a frame from its source.
pub fn decide(direction: Direction, frame: Frame) -> (verdict: Decision)
    ensures
        verdict@ == decision(direction, frame@),
{
    match into_message(frame) {
        Err(error) => Decision::Stop(error),
        Ok(message) => {
            let keepalive = match message {
                Message::Ping(_) => true,
                Message::Pong(_) => true,
                _ => false,
            };
            if message.is_close() {
                Decision::SendAndStop(message)
            } else if direction == Direction::Return && keepalive {
                Decision::Drop
            } else {
                Decision::Send(message)
            }
        },
    }
}

} // verus!
