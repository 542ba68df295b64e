//! The message model shared by both connection adapters and the bridge.

use vstd::prelude::*;

verus! {

/// A frame as an endpoint delivers it, before anything is known about its
/// payload. A text frame only claims to hold text.
#[derive(Debug, Clone, PartialEq, Eq)]
pub enum Frame {
    Text(Vec<u8>),
    Binary(Vec<u8>),
    Ping(Vec<u8>),
    Pong(Vec<u8>),
    Close(Option<u16>, Option<String>),
    /// Any frame kind that the relay does not carry.
    Other,
}

/// A message that may be sent to an endpoint. Its text is valid by
/// construction.
#[derive(Debug, Clone, PartialEq, Eq)]
pub enum Message {
    Text(String),
    Binary(Vec<u8>),
    Ping(Vec<u8>),
    Pong(Vec<u8>),
    Close(Option<u16>, Option<String>),
}

/// Why a frame cannot be carried to the other side.
#[derive(Debug, Clone, Copy, PartialEq, Eq, Structural)]
pub enum FrameError {
    /// A text frame whose payload is not UTF-8.
    InvalidText,
    /// A frame kind outside the message model.
    Unsupported,
}

pub enum FrameView {
    Text(Seq<u8>),
    Binary(Seq<u8>),
    Ping(Seq<u8>),
    Pong(Seq<u8>),
    Close(Option<u16>, Option<Seq<char>>),
    Other,
}

pub enum MessageView {
    Text(Seq<char>),
    Binary(Seq<u8>),
    Ping(Seq<u8>),
    Pong(Seq<u8>),
    Close(Option<u16>, Option<Seq<char>>),
}

pub open spec fn reason_view(reason: Option<String>) -> Option<Seq<char>> {
    match reason {
        Some(text) => Some(text@),
        None => None,
    }
}

impl View for Frame {
    type V = FrameView;

    open spec fn view(&self) -> FrameView {
        match *self {
            Frame::Text(payload) => FrameView::Text(payload@),
            Frame::Binary(payload) => FrameView::Binary(payload@),
            Frame::Ping(payload) => FrameView::Ping(payload@),
            Frame::Pong(payload) => FrameView::Pong(payload@),
            Frame::Close(code, reason) => FrameView::Close(code, reason_view(reason)),
            Frame::Other => FrameView::Other,
        }
    }
}

impl View for Message {
    type V = MessageView;

    open spec fn view(&self) -> MessageView {
        match *self {
            Message::Text(text) => MessageView::Text(text@),
            Message::Binary(payload) => MessageView::Binary(payload@),
            Message::Ping(payload) => MessageView::Ping(payload@),
            Message::Pong(payload) => MessageView::Pong(payload@),
            Message::Close(code, reason) => MessageView::Close(code, reason_view(reason)),
        }
    }
}

impl MessageView {
    /// A ping or a pong: traffic that only keeps a connection alive.
    pub open spec fn is_keepalive(self) -> bool {
        self is Ping || self is Pong
    }
}

/// The close code for a normal closure.
pub const NORMAL_CLOSURE: u16 = 1000;

/// What a close frame carries on the wire for a close with this code and
/// reason. A frame with neither carries nothing. A frame cannot carry a
/// reason without a code, so a lone reason goes out as a normal closure, and
/// a lone code with an empty reason.
pub open spec fn close_payload_of(code: Option<u16>, reason: Option<Seq<char>>) -> Option<
    (u16, Seq<char>),
> {
    if code is None && reason is None {
        None
    } else {
        Some(
            (
                match code {
                    Some(code) => code,
                    None => NORMAL_CLOSURE,
                },
                match reason {
                    Some(reason) => reason,
                    None => Seq::empty(),
                },
            ),
        )
    }
}

/// The code and the reason to put into a close frame, if it is to carry any.
pub fn close_payload(code: Option<u16>, reason: Option<String>) -> (payload: Option<
    (u16, String),
>)
    ensures
        match payload {
            Some((c, r)) => close_payload_of(code, reason_view(reason)) == Some((c, r@)),
            None => close_payload_of(code, reason_view(reason)) is None,
        },
{
    match (code, reason) {
        (None, None) => None,
        (Some(code), Some(reason)) => Some((code, reason)),
        (Some(code), None) => Some((code, String::new())),
        (None, Some(reason)) => Some((NORMAL_CLOSURE, reason)),
    }
}

impl Message {
    /// Whether this message closes the connection it is sent on.
    pub fn is_close(&self) -> (b: bool)
        ensures
            b == (self@ is Close),
    {
        match self {
            Message::Close(_, _) => true,
            _ => false,
        }
    }
}

} // verus!
