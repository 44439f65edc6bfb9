//! Reaching the database at startup: open a client, then probe the
//! database once. The service is ready only when both went well; the first
//! failure ends the attempt, and nothing is tried twice.

use vstd::prelude::*;
use crate::config::connection_uri;
use crate::config::default_mongo_host;
use crate::config::default_mongo_port;
use crate::config::mongo_uri;
use crate::config::setting;

verus! {

/// The command by which the database is probed: it asks for nothing but
/// an answer.
pub const PROBE_COMMAND: &'static str = "ping";

/// How far the attempt has come.
#[derive(Debug, Clone, Copy, PartialEq, Eq, Structural)]
pub enum ConnectState {
    /// A client is being opened.
    Opening,
    /// The client is open and the database is being probed.
    Probing,
    /// The database answered the probe.
    Ready,
    /// The attempt failed.
    Failed,
}

/// What the driver reported of the step that was under way.
#[derive(Debug, Clone, PartialEq)]
pub enum ConnectEvent {
    /// The client was opened.
    Opened,
    /// The database answered the probe.
    Answered,
    /// The step failed; the driver's words.
    Refused(String),
}

/// The one kind of failure of an attempt, whatever went wrong.
#[derive(Debug, Clone, PartialEq)]
pub struct ConnectionError {
    pub message: String,
}

/// What is to be done next.
#[derive(Debug, Clone, PartialEq)]
pub enum ConnectAction {
    /// Open a client on this connection string.
    Open(String),
    /// Send the database a ping.
    Probe,
    /// Hand the database to the handlers and start serving.
    Serve,
    /// Give up: the service does not start.
    Abort(ConnectionError),
}

/// An event, its words taken as text.
pub enum Signal {
    Opened,
    Answered,
    Refused(Seq<char>),
}

/// An action, its strings taken as text.
pub enum Order {
    Open(Seq<char>),
    Probe,
    Serve,
    Abort(Seq<char>),
}

impl View for ConnectEvent {
    type V = Signal;

    open spec fn view(&self) -> Signal {
        match self {
            ConnectEvent::Opened => Signal::Opened,
            ConnectEvent::Answered => Signal::Answered,
            ConnectEvent::Refused(words) => Signal::Refused(words@),
        }
    }
}

impl View for ConnectAction {
    type V = Order;

    open spec fn view(&self) -> Order {
        match self {
            ConnectAction::Open(uri) => Order::Open(uri@),
            ConnectAction::Probe => Order::Probe,
            ConnectAction::Serve => Order::Serve,
            ConnectAction::Abort(error) => Order::Abort(error.message@),
        }
    }
}

/// The state and the order that follow an event, where the state awaits
/// that event. A finished attempt awaits none.
pub open spec fn next(state: ConnectState, signal: Signal) -> Option<(ConnectState, Order)> {
    match (state, signal) {
        (ConnectState::Opening, Signal::Opened) => Some((ConnectState::Probing, Order::Probe)),
        (ConnectState::Probing, Signal::Answered) => Some((ConnectState::Ready, Order::Serve)),
        (ConnectState::Opening, Signal::Refused(words)) => Some(
            (ConnectState::Failed, Order::Abort(words)),
        ),
        (ConnectState::Probing, Signal::Refused(words)) => Some(
            (ConnectState::Failed, Order::Abort(words)),
        ),
        _ => None,
    }
}

/// A step, its action taken as an order.
pub open spec fn step_of(step: Option<(ConnectState, ConnectAction)>) -> Option<
    (ConnectState, Order),
> {
    match step {
        Some((state, action)) => Some((state, action@)),
        None => None,
    }
}

/// The state in which a run of events ends, where each came when it was
/// awaited.
pub open spec fn run(state: ConnectState, signals: Seq<Signal>) -> Option<ConnectState>
    decreases signals.len(),
{
    if signals.len() == 0 {
        Some(state)
    } else {
        match next(state, signals[0]) {
            Some((after, _)) => run(after, signals.drop_first()),
            None => None,
        }
    }
}

/// Starts an attempt: the first order is to open a client on the
/// connection string of the host and port that are set.
pub fn begin(host: Option<String>, port: Option<String>) -> (start: (ConnectState, ConnectAction))
    ensures
        start.0 == ConnectState::Opening,
        start.1@ == Order::Open(
            connection_uri(
                setting(host, default_mongo_host()),
                setting(port, default_mongo_port()),
            ),
        ),
{
    (ConnectState::Opening, ConnectAction::Open(mongo_uri(host, port)))
}

/// Takes one event in one state: the state and the order that follow, or
/// nothing where the state does not await the event.
pub fn advance(state: ConnectState, event: ConnectEvent) -> (step: Option<
    (ConnectState, ConnectAction),
>)
    ensures
        step_of(step) == next(state, event@),
{
    match state {
        ConnectState::Opening => match event {
            ConnectEvent::Opened => Some((ConnectState::Probing, ConnectAction::Probe)),
            ConnectEvent::Refused(message) => Some(
                (ConnectState::Failed, ConnectAction::Abort(ConnectionError { message })),
            ),
            ConnectEvent::Answered => None,
        },
        ConnectState::Probing => match event {
            ConnectEvent::Answered => Some((ConnectState::Ready, ConnectAction::Serve)),
            ConnectEvent::Refused(message) => Some(
                (ConnectState::Failed, ConnectAction::Abort(ConnectionError { message })),
            ),
            ConnectEvent::Opened => None,
        },
        ConnectState::Ready => None,
        ConnectState::Failed => None,
    }
}

/// An attempt ends ready on one run of events only: the client opened,
/// then the probe answered. So the service never serves without both, and
/// after a failure no further event brings it back.
pub proof fn lemma_ready_needs_both(signals: Seq<Signal>)
    ensures
        run(ConnectState::Opening, signals) == Some(ConnectState::Ready) <==> signals
            == seq![Signal::Opened, Signal::Answered],
{
    reveal_with_fuel(run, 4);
    let both = seq![Signal::Opened, Signal::Answered];
    if signals == both {
        assert(signals.drop_first().drop_first().len() == 0);
    }
    if run(ConnectState::Opening, signals) == Some(ConnectState::Ready) {
        assert(signals.drop_first().drop_first().len() == 0);
        assert(signals =~= both);
    }
}

} // verus!
