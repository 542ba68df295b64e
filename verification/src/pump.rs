//! A pump moves messages one way: it waits for a frame from its source,
//! decides what to make of it, waits for the destination to take the message,
//! and starts over. It is told what happened and answers with what to do next.

use crate::bridge::{decide, decision, Decision, DecisionView, Direction};
use crate::message::{Frame, FrameError, FrameView, Message, MessageView};
use vstd::prelude::*;

verus! {

/// Why a pump has stopped.
#[derive(Debug, Clone, Copy, PartialEq, Eq, Structural)]
pub enum StopReason {
    /// The source failed or has no more frames.
    SourceEnded,
    /// The destination did not take a message.
    SendFailed,
    /// The source delivered a frame that cannot be carried.
    BadFrame(FrameError),
    /// A close has been passed on.
    CloseRelayed,
    /// The other pump of the session stopped first.
    Cancelled,
}

/// Where a pump stands.
#[derive(Debug, Clone, Copy, PartialEq, Eq, Structural)]
pub enum PumpState {
    /// Waiting for the source to deliver a frame.
    Receiving,
    /// Waiting for the destination to take a message.
    Sending,
    /// Waiting for the destination to take a close, the last message.
    Closing,
    /// Done, for good.
    Stopped(StopReason),
}

/// What happened at one of a pump's two endpoints.
#[derive(Debug, Clone, PartialEq, Eq)]
pub enum PumpEvent {
    /// The source delivered a frame.
    Received(Frame),
    /// The source failed or came to its end.
    SourceEnded,
    /// The destination took the message.
    Sent,
    /// The destination failed to take the message.
    SendFailed,
}

/// What a pump asks for next.
#[derive(Debug, Clone, PartialEq, Eq)]
pub enum PumpAction {
    /// Wait for the next frame from the source.
    Receive,
    /// Send this message to the destination.
    Send(Message),
    /// Nothing more: the pump has stopped.
    Stop(StopReason),
    /// Nothing at all: the event was not the one awaited.
    Ignore,
}

pub enum PumpEventView {
    Received(FrameView),
    SourceEnded,
    Sent,
    SendFailed,
}

pub enum PumpActionView {
    Receive,
    Send(MessageView),
    Stop(StopReason),
    Ignore,
}

impl View for PumpEvent {
    type V = PumpEventView;

    open spec fn view(&self) -> PumpEventView {
        match *self {
            PumpEvent::Received(frame) => PumpEventView::Received(frame@),
            PumpEvent::SourceEnded => PumpEventView::SourceEnded,
            PumpEvent::Sent => PumpEventView::Sent,
            PumpEvent::SendFailed => PumpEventView::SendFailed,
        }
    }
}

impl View for PumpAction {
    type V = PumpActionView;

    open spec fn view(&self) -> PumpActionView {
        match *self {
            PumpAction::Receive => PumpActionView::Receive,
            PumpAction::Send(message) => PumpActionView::Send(message@),
            PumpAction::Stop(reason) => PumpActionView::Stop(reason),
            PumpAction::Ignore => PumpActionView::Ignore,
        }
    }
}

impl PumpState {
    pub open spec fn is_stopped(self) -> bool {
        self is Stopped
    }
}

/// The pump's step. A stopped pump stays stopped. A receiving pump acts on
/// the frame as the bridge's rule says, and stops when its source ends. A
/// pump that waits for its destination goes back to receiving once the
/// message is taken, or stops if that message was a close; it stops when the
/// destination fails. An event that the pump does not await changes nothing.
pub open spec fn pump_next(direction: Direction, state: PumpState, event: PumpEventView) -> (
    PumpState,
    PumpActionView,
) {
    match state {
        PumpState::Stopped(reason) => (state, PumpActionView::Stop(reason)),
        PumpState::Receiving => match event {
            PumpEventView::Received(frame) => match decision(direction, frame) {
                DecisionView::Send(message) => (PumpState::Sending, PumpActionView::Send(message)),
                DecisionView::SendAndStop(message) => (
                    PumpState::Closing,
                    PumpActionView::Send(message),
                ),
                DecisionView::Drop => (PumpState::Receiving, PumpActionView::Receive),
                DecisionView::Stop(error) => stopped(StopReason::BadFrame(error)),
            },
            PumpEventView::SourceEnded => stopped(StopReason::SourceEnded),
            _ => (state, PumpActionView::Ignore),
        },
        PumpState::Sending => match event {
            PumpEventView::Sent => (PumpState::Receiving, PumpActionView::Receive),
            PumpEventView::SendFailed => stopped(StopReason::SendFailed),
            _ => (state, PumpActionView::Ignore),
        },
        PumpState::Closing => match event {
            PumpEventView::Sent => stopped(StopReason::CloseRelayed),
            PumpEventView::SendFailed => stopped(StopReason::SendFailed),
            _ => (state, PumpActionView::Ignore),
        },
    }
}

/// A pump that stops, and says why.
pub open spec fn stopped(reason: StopReason) -> (PumpState, PumpActionView) {
    (PumpState::Stopped(reason), PumpActionView::Stop(reason))
}

/// The state of a pump once its session is over: a pump that still ran is
/// cancelled, one that had stopped keeps its reason.
pub open spec fn cancelled(state: PumpState) -> PumpState {
    if state.is_stopped() {
        state
    } else {
        PumpState::Stopped(StopReason::Cancelled)
    }
}

/// One direction of a relay session.
#[derive(Debug, Clone, Copy, PartialEq, Eq)]
pub struct Pump {
    direction: Direction,
    state: PumpState,
}

impl Pump {
    pub closed spec fn spec_direction(&self) -> Direction {
        self.direction
    }

    pub closed spec fn spec_state(&self) -> PumpState {
        self.state
    }

    /// A pump for `direction`, waiting for its first frame.
    pub fn new(direction: Direction) -> (pump: Pump)
        ensures
            pump.spec_direction() == direction,
            pump.spec_state() == PumpState::Receiving,
    {
        Pump { direction, state: PumpState::Receiving }
    }

    #[verifier::when_used_as_spec(spec_direction)]
    pub fn direction(&self) -> (direction: Direction)
        ensures
            direction == self.spec_direction(),
    {
        self.direction
    }

    #[verifier::when_used_as_spec(spec_state)]
    pub fn state(&self) -> (state: PumpState)
        ensures
            state == self.spec_state(),
    {
        self.state
    }

    /// Whether the pump has stopped.
    pub fn is_stopped(&self) -> (b: bool)
        ensures
            b == self.state().is_stopped(),
    {
        match self.state {
            PumpState::Stopped(_) => true,
            _ => false,
        }
    }

    /// Takes in what happened and says what to do next.
    pub fn step(&mut self, event: PumpEvent) -> (action: PumpAction)
        ensures
            final(self).direction() == old(self).direction(),
            (final(self).state(), action@) == pump_next(
                old(self).direction(),
                old(self).state(),
                event@,
            ),
    {
        match self.state {
            PumpState::Stopped(reason) => PumpAction::Stop(reason),
            PumpState::Receiving => match event {
                PumpEvent::Received(frame) => match decide(self.direction, frame) {
                    Decision::Send(message) => {
                        self.state = PumpState::Sending;
                        PumpAction::Send(message)
                    },
                    Decision::SendAndStop(message) => {
                        self.state = PumpState::Closing;
                        PumpAction::Send(message)
                    },
                    Decision::Drop => PumpAction::Receive,
                    Decision::Stop(error) => self.stop(StopReason::BadFrame(error)),
                },
                PumpEvent::SourceEnded => self.stop(StopReason::SourceEnded),
                _ => PumpAction::Ignore,
            },
            PumpState::Sending => match event {
                PumpEvent::Sent => {
                    self.state = PumpState::Receiving;
                    PumpAction::Receive
                },
                PumpEvent::SendFailed => self.stop(StopReason::SendFailed),
                _ => PumpAction::Ignore,
            },
            PumpState::Closing => match event {
                PumpEvent::Sent => self.stop(StopReason::CloseRelayed),
                PumpEvent::SendFailed => self.stop(StopReason::SendFailed),
                _ => PumpAction::Ignore,
            },
        }
    }

    /// Stops the pump because the other pump of its session has stopped. A
    /// pump that had stopped by itself keeps its reason.
    pub fn cancel(&mut self)
        ensures
            final(self).direction() == old(self).direction(),
            final(self).state() == cancelled(old(self).state()),
    {
        if !self.is_stopped() {
            self.state = PumpState::Stopped(StopReason::Cancelled);
        }
    }

    fn stop(&mut self, reason: StopReason) -> (action: PumpAction)
        ensures
            final(self).direction() == old(self).direction(),
            (final(self).state(), action@) == stopped(reason),
    {
        self.state = PumpState::Stopped(reason);
        PumpAction::Stop(reason)
    }
}

/// What the destination is sent while the source delivers `frames` one after
/// another and the destination takes every message: the messages, in the
/// order in which the pump asks for them to be sent.
pub open spec fn relayed(direction: Direction, state: PumpState, frames: Seq<FrameView>) -> Seq<
    MessageView,
>
    decreases frames.len(),
{
    if frames.len() == 0 {
        Seq::empty()
    } else {
        let (waiting, action) = pump_next(direction, state, PumpEventView::Received(frames[0]));
        match action {
            PumpActionView::Send(message) => seq![message] + relayed(
                direction,
                pump_next(direction, waiting, PumpEventView::Sent).0,
                frames.skip(1),
            ),
            _ => relayed(direction, waiting, frames.skip(1)),
        }
    }
}

/// A pump that has stopped passes nothing on, whatever its source delivers.
pub proof fn lemma_stopped_relays_nothing(
    direction: Direction,
    reason: StopReason,
    frames: Seq<FrameView>,
)
    ensures
        relayed(direction, PumpState::Stopped(reason), frames) == Seq::<MessageView>::empty(),
    decreases frames.len(),
{
    if frames.len() > 0 {
        lemma_stopped_relays_nothing(direction, reason, frames.skip(1));
    }
}

/// Within one direction, messages leave in the order in which their frames
/// came, each exactly once: while no frame is dropped, closes or stops the
/// pump, what is sent is the frames' messages, one for one.
pub proof fn lemma_relayed_in_order(direction: Direction, frames: Seq<FrameView>)
    requires
        forall|i: int| 0 <= i < frames.len() ==> #[trigger] decision(direction, frames[i]) is Send,
    ensures
        relayed(direction, PumpState::Receiving, frames) == Seq::new(
            frames.len(),
            |i: int| decision(direction, frames[i])->Send_0,
        ),
    decreases frames.len(),
{
    if frames.len() > 0 {
        lemma_relayed_in_order(direction, frames.skip(1));
    }
}

/// Every text frame of the client that holds valid text reaches the backend
/// as one text message with that text, in the order of sending; and so it is
/// in the other direction.
pub proof fn lemma_text_relayed_in_order(direction: Direction, frames: Seq<FrameView>)
    requires
        forall|i: int|
            0 <= i < frames.len() ==> (#[trigger] frames[i]) is Text && vstd::utf8::valid_utf8(
                frames[i]->Text_0,
            ),
    ensures
        relayed(direction, PumpState::Receiving, frames) == Seq::new(
            frames.len(),
            |i: int| MessageView::Text(vstd::utf8::decode_utf8(frames[i]->Text_0)),
        ),
{
    lemma_relayed_in_order(direction, frames);
    assert(relayed(direction, PumpState::Receiving, frames) =~= Seq::new(
        frames.len(),
        |i: int| MessageView::Text(vstd::utf8::decode_utf8(frames[i]->Text_0)),
    ));
}

/// A frame that stops the pump is the end of its direction: neither it nor
/// any frame after it is passed on.
pub proof fn lemma_nothing_after_bad_frame(direction: Direction, frames: Seq<FrameView>, at: int)
    requires
        0 <= at < frames.len(),
        decision(direction, frames[at]) is Stop,
    ensures
        relayed(direction, PumpState::Receiving, frames) == relayed(
            direction,
            PumpState::Receiving,
            frames.take(at),
        ),
    decreases at,
{
    let before = frames.take(at);
    let rest = frames.skip(1);
    if at == 0 {
        lemma_stopped_relays_nothing(
            direction,
            StopReason::BadFrame(decision(direction, frames[0])->Stop_0),
            rest,
        );
    } else {
        assert(before.skip(1) =~= rest.take(at - 1));
        match decision(direction, frames[0]) {
            DecisionView::Send(_) => {
                lemma_nothing_after_bad_frame(direction, rest, at - 1);
            },
            DecisionView::Drop => {
                lemma_nothing_after_bad_frame(direction, rest, at - 1);
            },
            DecisionView::SendAndStop(_) => {
                lemma_stopped_relays_nothing(direction, StopReason::CloseRelayed, rest);
                lemma_stopped_relays_nothing(direction, StopReason::CloseRelayed, before.skip(1));
            },
            DecisionView::Stop(error) => {
                lemma_stopped_relays_nothing(direction, StopReason::BadFrame(error), rest);
                lemma_stopped_relays_nothing(
                    direction,
                    StopReason::BadFrame(error),
                    before.skip(1),
                );
            },
        }
    }
}

/// A text frame of the client that is not valid text ends the forward
/// direction: nothing that the client sends from then on reaches the backend.
pub proof fn lemma_invalid_text_ends_forwarding(frames: Seq<FrameView>, at: int)
    requires
        0 <= at < frames.len(),
        frames[at] is Text,
        !vstd::utf8::valid_utf8(frames[at]->Text_0),
    ensures
        relayed(Direction::Forward, PumpState::Receiving, frames) == relayed(
            Direction::Forward,
            PumpState::Receiving,
            frames.take(at),
        ),
{
    lemma_nothing_after_bad_frame(Direction::Forward, frames, at);
}

/// No ping and no pong of the backend is ever sent to the client.
pub proof fn lemma_keepalive_not_returned(state: PumpState, frames: Seq<FrameView>)
    ensures
        forall|k: int|
            0 <= k < relayed(Direction::Return, state, frames).len() ==> !(#[trigger] relayed(
                Direction::Return,
                state,
                frames,
            )[k]).is_keepalive(),
    decreases frames.len(),
{
    if frames.len() > 0 {
        let (waiting, action) = pump_next(
            Direction::Return,
            state,
            PumpEventView::Received(frames[0]),
        );
        match action {
            PumpActionView::Send(message) => {
                let taken = pump_next(Direction::Return, waiting, PumpEventView::Sent).0;
                let later = relayed(Direction::Return, taken, frames.skip(1));
                let all = relayed(Direction::Return, state, frames);
                lemma_keepalive_not_returned(taken, frames.skip(1));
                assert forall|k: int| 0 <= k < all.len() implies !(#[trigger] all[k]).is_keepalive(
                ) by {
                    if k > 0 {
                        assert(all[k] == later[k - 1]);
                    }
                }
            },
            _ => {
                lemma_keepalive_not_returned(waiting, frames.skip(1));
                assert(relayed(Direction::Return, state, frames) == relayed(
                    Direction::Return,
                    waiting,
                    frames.skip(1),
                ));
            },
        }
    }
}

/// A close reaches the other side with the code and the reason it came with,
/// and nothing is passed on after it.
pub proof fn lemma_close_relayed_faithfully(
    direction: Direction,
    code: Option<u16>,
    reason: Option<Seq<char>>,
    later: Seq<FrameView>,
)
    ensures
        relayed(direction, PumpState::Receiving, seq![FrameView::Close(code, reason)] + later)
            == seq![MessageView::Close(code, reason)],
{
    let frames = seq![FrameView::Close(code, reason)] + later;
    lemma_stopped_relays_nothing(direction, StopReason::CloseRelayed, frames.skip(1));
    assert(relayed(direction, PumpState::Receiving, frames) =~= seq![
        MessageView::Close(code, reason),
    ]);
}

} // verus!
