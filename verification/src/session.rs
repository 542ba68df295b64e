//! A relay session: the two pumps of one upgraded connection, and the rule
//! that the first pump to stop ends the session for both.

use crate::bridge::Direction;
use crate::message::{Message, MessageView};
use crate::pump::{
    cancelled, pump_next, Pump, PumpAction, PumpActionView, PumpEvent, PumpEventView, PumpState,
    StopReason,
};
use vstd::prelude::*;

verus! {

/// The two ends of a relay session.
#[derive(Debug, Clone, Copy, PartialEq, Eq, Structural)]
pub enum Side {
    Client,
    Backend,
}

/// A handle for one end of one client connection's relay.
#[derive(Debug, Clone, Copy, PartialEq, Eq, Structural)]
pub struct Endpoint {
    pub connection: u64,
    pub side: Side,
}

/// What a session asks for next.
#[derive(Debug, Clone, PartialEq, Eq)]
pub enum SessionAction {
    /// Wait for the next frame from this endpoint.
    Receive(Endpoint),
    /// Send this message to this endpoint.
    Send(Endpoint, Message),
    /// The session is over: drop what is pending and close both endpoints.
    End(StopReason),
    /// Nothing: the event was not the one awaited.
    Ignore,
}

pub enum SessionActionView {
    Receive(Endpoint),
    Send(Endpoint, MessageView),
    End(StopReason),
    Ignore,
}

impl View for SessionAction {
    type V = SessionActionView;

    open spec fn view(&self) -> SessionActionView {
        match *self {
            SessionAction::Receive(from) => SessionActionView::Receive(from),
            SessionAction::Send(to, message) => SessionActionView::Send(to, message@),
            SessionAction::End(reason) => SessionActionView::End(reason),
            SessionAction::Ignore => SessionActionView::Ignore,
        }
    }
}

impl Direction {
    /// The side that the pump of this direction reads from.
    pub open spec fn source(self) -> Side {
        match self {
            Direction::Forward => Side::Client,
            Direction::Return => Side::Backend,
        }
    }

    /// The side that the pump of this direction writes to.
    pub open spec fn destination(self) -> Side {
        match self {
            Direction::Forward => Side::Backend,
            Direction::Return => Side::Client,
        }
    }

    pub open spec fn opposite(self) -> Direction {
        match self {
            Direction::Forward => Direction::Return,
            Direction::Return => Direction::Forward,
        }
    }
}

/// A relay session as the contracts see it: the connection it belongs to and
/// where each of its pumps stands.
pub struct SessionView {
    pub connection: u64,
    pub forward: PumpState,
    pub backward: PumpState,
}

impl SessionView {
    /// The pumps run together and stop together.
    pub open spec fn wf(self) -> bool {
        self.forward.is_stopped() == self.backward.is_stopped()
    }

    /// A session that has just been made: both pumps wait for a frame.
    pub open spec fn fresh(connection: u64) -> SessionView {
        SessionView { connection, forward: PumpState::Receiving, backward: PumpState::Receiving }
    }

    pub open spec fn is_over(self) -> bool {
        self.forward.is_stopped()
    }

    pub open spec fn pump(self, direction: Direction) -> PumpState {
        match direction {
            Direction::Forward => self.forward,
            Direction::Return => self.backward,
        }
    }

    pub open spec fn endpoint(self, side: Side) -> Endpoint {
        Endpoint { connection: self.connection, side }
    }

    /// Whether `endpoint` is one of the two ends of this session.
    pub open spec fn owns(self, endpoint: Endpoint) -> bool {
        endpoint.connection == self.connection
    }

    /// What the session asks for when its pump of `direction` asks for
    /// `action`: the pump's source and destination are the session's own.
    pub open spec fn action(self, direction: Direction, action: PumpActionView)
        -> SessionActionView {
        match action {
            PumpActionView::Receive => SessionActionView::Receive(
                self.endpoint(direction.source()),
            ),
            PumpActionView::Send(message) => SessionActionView::Send(
                self.endpoint(direction.destination()),
                message,
            ),
            PumpActionView::Stop(reason) => SessionActionView::End(reason),
            PumpActionView::Ignore => SessionActionView::Ignore,
        }
    }
}

/// The session's step: the pump of `direction` takes the event; if that pump
/// is stopped afterwards, the other one is cancelled at once.
pub open spec fn session_next(session: SessionView, direction: Direction, event: PumpEventView)
    -> (SessionView, SessionActionView) {
    let (state, action) = pump_next(direction, session.pump(direction), event);
    let other = session.pump(direction.opposite());
    let other = if state.is_stopped() {
        cancelled(other)
    } else {
        other
    };
    let next = match direction {
        Direction::Forward => SessionView {
            connection: session.connection,
            forward: state,
            backward: other,
        },
        Direction::Return => SessionView {
            connection: session.connection,
            forward: other,
            backward: state,
        },
    };
    (next, session.action(direction, action))
}

/// The pair of pumps that relays for one upgraded client connection.
#[derive(Debug, Clone, Copy, PartialEq, Eq)]
pub struct RelaySession {
    connection: u64,
    forward: Pump,
    backward: Pump,
}

impl View for RelaySession {
    type V = SessionView;

    closed spec fn view(&self) -> SessionView {
        SessionView {
            connection: self.connection,
            forward: self.forward.state(),
            backward: self.backward.state(),
        }
    }
}

impl RelaySession {
    #[verifier::type_invariant]
    spec fn inv(&self) -> bool {
        &&& self.forward.direction() == Direction::Forward
        &&& self.backward.direction() == Direction::Return
        &&& self@.wf()
    }

    /// The session of client connection `connection`, made once its backend
    /// is connected.
    pub fn new(connection: u64) -> (session: RelaySession)
        ensures
            session@ == SessionView::fresh(connection),
    {
        RelaySession {
            connection,
            forward: Pump::new(Direction::Forward),
            backward: Pump::new(Direction::Return),
        }
    }

    /// The client connection that this session belongs to.
    pub fn connection(&self) -> (connection: u64)
        ensures
            connection == self@.connection,
    {
        self.connection
    }

    /// Where the pump of `direction` stands.
    pub fn pump_state(&self, direction: Direction) -> (state: PumpState)
        ensures
            state == self@.pump(direction),
    {
        match direction {
            Direction::Forward => self.forward.state(),
            Direction::Return => self.backward.state(),
        }
    }

    /// Whether the session has ended.
    pub fn is_over(&self) -> (over: bool)
        ensures
            over == self@.is_over(),
            self@.wf(),
    {
        proof {
            use_type_invariant(self);
        }
        self.forward.is_stopped()
    }

    /// Takes in what happened at an endpoint of the pump of `direction` and
    /// says what to do next.
    pub fn step(&mut self, direction: Direction, event: PumpEvent) -> (action: SessionAction)
        ensures
            old(self)@.wf(),
            final(self)@.wf(),
            (final(self)@, action@) == session_next(old(self)@, direction, event@),
    {
        proof {
            use_type_invariant(&*self);
        }
        let (mut pump, mut other) = match direction {
            Direction::Forward => (self.forward, self.backward),
            Direction::Return => (self.backward, self.forward),
        };
        let asked = pump.step(event);
        if pump.is_stopped() {
            other.cancel();
        }
        let action = match asked {
            PumpAction::Receive => SessionAction::Receive(
                Endpoint { connection: self.connection, side: source(direction) },
            ),
            PumpAction::Send(message) => SessionAction::Send(
                Endpoint { connection: self.connection, side: destination(direction) },
                message,
            ),
            PumpAction::Stop(reason) => SessionAction::End(reason),
            PumpAction::Ignore => SessionAction::Ignore,
        };
        *self = match direction {
            Direction::Forward => RelaySession {
                connection: self.connection,
                forward: pump,
                backward: other,
            },
            Direction::Return => RelaySession {
                connection: self.connection,
                forward: other,
                backward: pump,
            },
        };
        action
    }
}

/// The side that the pump of `direction` reads from.
pub fn source(direction: Direction) -> (side: Side)
    ensures
        side == direction.source(),
{
    match direction {
        Direction::Forward => Side::Client,
        Direction::Return => Side::Backend,
    }
}

/// The side that the pump of `direction` writes to.
pub fn destination(direction: Direction) -> (side: Side)
    ensures
        side == direction.destination(),
{
    match direction {
        Direction::Forward => Side::Backend,
        Direction::Return => Side::Client,
    }
}

/// A session's pumps stop together: whatever happens, after a step either
/// both still run or both have stopped, and a session that is over stays over.
pub proof fn lemma_session_stops_as_one(
    session: SessionView,
    direction: Direction,
    event: PumpEventView,
)
    requires
        session.wf(),
    ensures
        session_next(session, direction, event).0.wf(),
        session_next(session, direction, event).0.connection == session.connection,
        session.is_over() ==> session_next(session, direction, event).0 == session,
        session_next(session, direction, event).1 is End <==> session_next(
            session,
            direction,
            event,
        ).0.is_over(),
{
}

/// Sessions do not mix: whatever arrives in one session, that session asks
/// to send and to receive at its own two endpoints only, never at those of
/// the session of another connection; and what came from its client goes to
/// its backend, what came from its backend to its client.
pub proof fn lemma_sessions_do_not_mix(
    session: SessionView,
    other: SessionView,
    direction: Direction,
    event: PumpEventView,
)
    requires
        session.connection != other.connection,
    ensures
        match session_next(session, direction, event).1 {
            SessionActionView::Send(to, _) => to == session.endpoint(direction.destination())
                && session.owns(to) && !other.owns(to),
            SessionActionView::Receive(from) => from == session.endpoint(direction.source())
                && session.owns(from) && !other.owns(from),
            _ => true,
        },
{
}

/// Neither direction waits for the other: a step of one pump that does not
/// end the session leaves the other pump where it stood.
pub proof fn lemma_directions_do_not_wait(
    session: SessionView,
    direction: Direction,
    event: PumpEventView,
)
    ensures
        !session_next(session, direction, event).0.pump(direction).is_stopped()
            ==> session_next(session, direction, event).0.pump(direction.opposite())
            == session.pump(direction.opposite()),
{
}

} // verus!
