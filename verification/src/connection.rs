//! The life of one client connection, from the request to the end of its
//! relay session.

use crate::bridge::Direction;
use crate::pump::{PumpEvent, PumpEventView};
use crate::session::{
    session_next, RelaySession, SessionAction, SessionActionView, SessionView,
};
use crate::upgrade::{asks_for_websocket, is_websocket, upgrade_value};
use vstd::prelude::*;
use warp::http::HeaderMap;

verus! {

/// How far a client connection has come.
#[derive(Debug, Clone, Copy, PartialEq, Eq, Structural)]
pub enum Phase {
    /// A request has arrived; nothing is known about it yet.
    Received,
    /// A plain request, left to the HTTP forwarder. Final.
    Plain,
    /// An upgrade request; the client's side of the upgrade is under way.
    UpgradeRequested,
    /// The handshake with the backend is under way.
    ConnectingBackend,
    /// A relay session runs.
    Bridging,
    /// The backend could not be reached; there is no session. Final.
    UpgradeFailed,
    /// The relay session is over. Final.
    Closed,
}

/// What happened on a client connection.
#[derive(Debug, Clone, PartialEq, Eq)]
pub enum Event {
    /// The request was examined: `true` if it asks for an upgrade.
    Detected(bool),
    /// The client's side of the upgrade is complete.
    ClientUpgraded,
    /// The handshake with the backend succeeded.
    BackendConnected,
    /// The handshake with the backend failed, was refused or timed out.
    BackendFailed,
    /// Something happened at an endpoint of the pump of this direction.
    Relay(Direction, PumpEvent),
}

/// What is to be done for a client connection.
#[derive(Debug, Clone, PartialEq, Eq)]
pub enum Action {
    /// Hand the request to the HTTP forwarder.
    ForwardPlain,
    /// Complete the client's side of the upgrade.
    UpgradeClient,
    /// Derive the backend's address and start the handshake with it.
    ConnectBackend,
    /// Close the client connection without another word, and log the
    /// failure. Do not try again.
    AbortClient,
    /// The session exists: start waiting for frames at both endpoints.
    StartRelay,
    /// What the relay session asks for.
    Relay(SessionAction),
    /// Nothing: the event has no meaning in this phase.
    Ignore,
}

pub enum EventView {
    Detected(bool),
    ClientUpgraded,
    BackendConnected,
    BackendFailed,
    Relay(Direction, PumpEventView),
}

pub enum ActionView {
    ForwardPlain,
    UpgradeClient,
    ConnectBackend,
    AbortClient,
    StartRelay,
    Relay(SessionActionView),
    Ignore,
}

impl View for Event {
    type V = EventView;

    open spec fn view(&self) -> EventView {
        match *self {
            Event::Detected(upgrade) => EventView::Detected(upgrade),
            Event::ClientUpgraded => EventView::ClientUpgraded,
            Event::BackendConnected => EventView::BackendConnected,
            Event::BackendFailed => EventView::BackendFailed,
            Event::Relay(direction, event) => EventView::Relay(direction, event@),
        }
    }
}

impl View for Action {
    type V = ActionView;

    open spec fn view(&self) -> ActionView {
        match *self {
            Action::ForwardPlain => ActionView::ForwardPlain,
            Action::UpgradeClient => ActionView::UpgradeClient,
            Action::ConnectBackend => ActionView::ConnectBackend,
            Action::AbortClient => ActionView::AbortClient,
            Action::StartRelay => ActionView::StartRelay,
            Action::Relay(action) => ActionView::Relay(action@),
            Action::Ignore => ActionView::Ignore,
        }
    }
}

impl Phase {
    /// A phase that no event leads out of.
    pub open spec fn is_final(self) -> bool {
        self == Phase::Plain || self == Phase::UpgradeFailed || self == Phase::Closed
    }
}

impl ActionView {
    /// Whether the action sends a message to an endpoint.
    pub open spec fn is_send(self) -> bool {
        self matches ActionView::Relay(SessionActionView::Send(_, _))
    }
}

/// A client connection as the contracts see it.
pub struct ConnectionView {
    pub id: u64,
    pub phase: Phase,
    pub session: Option<SessionView>,
}

impl ConnectionView {
    /// A connection has a relay session exactly while it is bridging. The
    /// session is its own, and it runs.
    pub open spec fn wf(self) -> bool {
        &&& self.phase == Phase::Bridging <==> self.session is Some
        &&& self.session matches Some(session) ==> session.wf() && !session.is_over()
            && session.connection == self.id
    }

    /// A connection on which a request has just arrived.
    pub open spec fn fresh(id: u64) -> ConnectionView {
        ConnectionView { id, phase: Phase::Received, session: None }
    }

    /// The same connection in another phase, without a session.
    pub open spec fn moved_to(self, phase: Phase) -> ConnectionView {
        ConnectionView { id: self.id, phase, session: None }
    }
}

/// The connection's step. A request is either plain or an upgrade request,
/// never both. An upgrade request leads to one attempt to reach the backend.
/// Its success makes the relay session; its failure makes none and aborts the
/// client. While bridging, events go to the session, and the end of the
/// session ends the connection. Any other event changes nothing.
pub open spec fn connection_next(connection: ConnectionView, event: EventView) -> (
    ConnectionView,
    ActionView,
) {
    match (connection.phase, event) {
        (Phase::Received, EventView::Detected(upgrade)) => if upgrade {
            (connection.moved_to(Phase::UpgradeRequested), ActionView::UpgradeClient)
        } else {
            (connection.moved_to(Phase::Plain), ActionView::ForwardPlain)
        },
        (Phase::UpgradeRequested, EventView::ClientUpgraded) => (
            connection.moved_to(Phase::ConnectingBackend),
            ActionView::ConnectBackend,
        ),
        (Phase::ConnectingBackend, EventView::BackendConnected) => (
            ConnectionView {
                id: connection.id,
                phase: Phase::Bridging,
                session: Some(SessionView::fresh(connection.id)),
            },
            ActionView::StartRelay,
        ),
        (Phase::ConnectingBackend, EventView::BackendFailed) => (
            connection.moved_to(Phase::UpgradeFailed),
            ActionView::AbortClient,
        ),
        (Phase::Bridging, EventView::Relay(direction, happened)) => {
            let (session, action) = session_next(connection.session->0, direction, happened);
            if session.is_over() {
                (connection.moved_to(Phase::Closed), ActionView::Relay(action))
            } else {
                (
                    ConnectionView {
                        id: connection.id,
                        phase: Phase::Bridging,
                        session: Some(session),
                    },
                    ActionView::Relay(action),
                )
            }
        },
        _ => (connection, ActionView::Ignore),
    }
}

/// One client connection.
#[derive(Debug, PartialEq, Eq)]
pub struct Connection {
    id: u64,
    phase: Phase,
    session: Option<RelaySession>,
}

impl View for Connection {
    type V = ConnectionView;

    closed spec fn view(&self) -> ConnectionView {
        ConnectionView {
            id: self.id,
            phase: self.phase,
            session: match self.session {
                Some(session) => Some(session@),
                None => None,
            },
        }
    }
}

impl Connection {
    #[verifier::type_invariant]
    spec fn inv(&self) -> bool {
        self@.wf()
    }

    /// The connection `id`, on which a request has just arrived.
    pub fn new(id: u64) -> (connection: Connection)
        ensures
            connection@ == ConnectionView::fresh(id),
    {
        Connection { id, phase: Phase::Received, session: None }
    }

    pub fn id(&self) -> (id: u64)
        ensures
            id == self@.id,
    {
        self.id
    }

    pub fn phase(&self) -> (phase: Phase)
        ensures
            phase == self@.phase,
            self@.wf(),
    {
        proof {
            use_type_invariant(self);
        }
        self.phase
    }

    /// The relay session, which exists exactly while the connection is
    /// bridging.
    pub fn session(&self) -> (session: Option<RelaySession>)
        ensures
            self@.wf(),
            match session {
                Some(s) => self@.session == Some(s@),
                None => self@.session is None,
            },
    {
        proof {
            use_type_invariant(self);
        }
        self.session
    }

    /// Takes in what happened and says what to do next.
    pub fn step(&mut self, event: Event) -> (action: Action)
        ensures
            old(self)@.wf(),
            final(self)@.wf(),
            (final(self)@, action@) == connection_next(old(self)@, event@),
    {
        proof {
            use_type_invariant(&*self);
        }
        let id = self.id;
        match (self.phase, event) {
            (Phase::Received, Event::Detected(upgrade)) => {
                if upgrade {
                    *self = Connection { id, phase: Phase::UpgradeRequested, session: None };
                    Action::UpgradeClient
                } else {
                    *self = Connection { id, phase: Phase::Plain, session: None };
                    Action::ForwardPlain
                }
            },
            (Phase::UpgradeRequested, Event::ClientUpgraded) => {
                *self = Connection { id, phase: Phase::ConnectingBackend, session: None };
                Action::ConnectBackend
            },
            (Phase::ConnectingBackend, Event::BackendConnected) => {
                *self = Connection {
                    id,
                    phase: Phase::Bridging,
                    session: Some(RelaySession::new(id)),
                };
                Action::StartRelay
            },
            (Phase::ConnectingBackend, Event::BackendFailed) => {
                *self = Connection { id, phase: Phase::UpgradeFailed, session: None };
                Action::AbortClient
            },
            (Phase::Bridging, Event::Relay(direction, happened)) => {
                match self.session {
                    Some(mut session) => {
                        let action = session.step(direction, happened);
                        if session.is_over() {
                            *self = Connection { id, phase: Phase::Closed, session: None };
                        } else {
                            *self = Connection {
                                id,
                                phase: Phase::Bridging,
                                session: Some(session),
                            };
                        }
                        Action::Relay(action)
                    },
                    None => Action::Ignore,
                }
            },
            _ => Action::Ignore,
        }
    }

    /// Examines the request that opened the connection and routes it: to the
    /// HTTP forwarder, or towards a relay session.
    pub fn on_request(&mut self, headers: &HeaderMap) -> (action: Action)
        ensures
            (final(self)@, action@) == connection_next(
                old(self)@,
                EventView::Detected(asks_for_websocket(upgrade_value(*headers))),
            ),
    {
        self.step(Event::Detected(is_websocket(headers)))
    }
}

/// The actions asked for, one for each event, while a connection takes in
/// `events` one after another.
pub open spec fn actions_of(connection: ConnectionView, events: Seq<EventView>) -> Seq<ActionView>
    decreases events.len(),
{
    if events.len() == 0 {
        Seq::empty()
    } else {
        let (next, action) = connection_next(connection, events[0]);
        seq![action] + actions_of(next, events.skip(1))
    }
}

/// A step keeps a connection well formed and keeps its identity.
pub proof fn lemma_step_keeps_connection(connection: ConnectionView, event: EventView)
    requires
        connection.wf(),
    ensures
        connection_next(connection, event).0.wf(),
        connection_next(connection, event).0.id == connection.id,
{
}

/// Messages need a session: a step asks to send only while the connection is
/// bridging, and then only to an endpoint of this very connection.
pub proof fn lemma_sending_needs_session(connection: ConnectionView, event: EventView)
    requires
        connection.wf(),
    ensures
        connection_next(connection, event).1 matches ActionView::Relay(
            SessionActionView::Send(to, _),
        ) ==> connection.phase == Phase::Bridging && connection.session is Some && to.connection
            == connection.id,
{
}

/// Nothing leads out of a final phase, and nothing is asked for in it.
pub proof fn lemma_final_phase_is_final(connection: ConnectionView, events: Seq<EventView>)
    requires
        connection.wf(),
        connection.phase.is_final(),
    ensures
        actions_of(connection, events) == Seq::new(events.len(), |k: int| ActionView::Ignore),
    decreases events.len(),
{
    if events.len() > 0 {
        lemma_final_phase_is_final(connection, events.skip(1));
    }
    assert(actions_of(connection, events) =~= Seq::new(
        events.len(),
        |k: int| ActionView::Ignore,
    ));
}

/// When the backend cannot be reached, the client is aborted, there is no
/// relay session, and whatever happens afterwards, nothing is ever sent.
pub proof fn lemma_failed_upgrade_sends_nothing(connection: ConnectionView, later: Seq<EventView>)
    requires
        connection.wf(),
        connection.phase == Phase::ConnectingBackend,
    ensures
        ({
            let (failed, action) = connection_next(connection, EventView::BackendFailed);
            &&& action == ActionView::AbortClient
            &&& failed.phase == Phase::UpgradeFailed
            &&& failed.session is None
            &&& forall|k: int|
                0 <= k < later.len() ==> !(#[trigger] actions_of(failed, later)[k]).is_send()
        }),
{
    let failed = connection_next(connection, EventView::BackendFailed).0;
    lemma_final_phase_is_final(failed, later);
}

/// A relay session is made by the success of the backend handshake and by
/// nothing else, and it is gone with the step in which one of its pumps stops.
pub proof fn lemma_session_comes_and_goes(connection: ConnectionView, event: EventView)
    requires
        connection.wf(),
    ensures
        ({
            let (next, action) = connection_next(connection, event);
            &&& connection.session is None && next.session is Some ==> connection.phase
                == Phase::ConnectingBackend && event == EventView::BackendConnected
                && next.session == Some(SessionView::fresh(connection.id))
            &&& connection.session is Some && next.session is None ==> next.phase
                == Phase::Closed && action matches ActionView::Relay(SessionActionView::End(_))
        }),
{
}

} // verus!
