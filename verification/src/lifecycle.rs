//! The accept loop's lifecycle.
//!
//! The loop itself waits on the network and on the operator; what it does
//! with each thing it waited for is decided here. The caller feeds every
//! [`Event`] to [`step`], carries out the returned [`Action`], and keeps the
//! returned [`State`] for the next round.

use vstd::prelude::*;

verus! {

/// Host the service binds to when none is configured.
pub const DEFAULT_HOST: &'static str = "127.0.0.1";

/// Port the service binds to when none is configured.
pub const DEFAULT_PORT: u16 = 3675;

/// The address the service listens on, fixed at startup.
#[derive(Clone, Debug, PartialEq, Eq)]
pub struct ListenAddress {
    pub host: String,
    pub port: u16,
}

impl Default for ListenAddress {
    /// The loopback address on the default port.
    fn default() -> (address: Self)
        ensures
            address.host@ == DEFAULT_HOST@,
            address.port == DEFAULT_PORT,
    {
        ListenAddress { host: DEFAULT_HOST.to_owned(), port: DEFAULT_PORT }
    }
}

/// The accept loop is either taking connections or has stopped for good.
#[derive(Clone, Copy, Debug, PartialEq, Eq)]
pub enum State {
    Running,
    Stopped,
}

/// What the accept loop was waiting for when it woke up.
#[derive(Clone, Copy, Debug, PartialEq, Eq)]
pub enum Event {
    /// The operator interrupted the process.
    Interrupt,
    /// A new connection was accepted on the listening socket.
    Accepted,
}

/// How one accepted connection is to be served.
#[derive(Clone, Copy, Debug, PartialEq, Eq)]
pub struct ConnectionPolicy {
    /// Whether the connection stays open for further requests after the
    /// first response.
    pub keep_alive: bool,
}

/// What the accept loop does next.
#[derive(Clone, Copy, Debug, PartialEq, Eq)]
pub enum Action {
    /// Hand the accepted connection to a task of its own, served under the
    /// given policy, then yield so that waiting tasks can run, and go on
    /// accepting.
    Serve(ConnectionPolicy),
    /// Leave the loop. Connections handed out earlier are left to finish.
    Stop,
}

/// The state that follows `state` once `event` has been seen.
pub open spec fn next_state(state: State, event: Event) -> State {
    match (state, event) {
        (State::Running, Event::Accepted) => State::Running,
        _ => State::Stopped,
    }
}

/// What the loop does on seeing `event` in `state`.
pub open spec fn action_for(state: State, event: Event) -> Action {
    match (state, event) {
        (State::Running, Event::Accepted) => Action::Serve(
            ConnectionPolicy { keep_alive: false },
        ),
        _ => Action::Stop,
    }
}

/// The state reached from `state` after the events of `events`, in order.
pub open spec fn run(state: State, events: Seq<Event>) -> State
    decreases events.len(),
{
    if events.len() == 0 {
        state
    } else {
        run(next_state(state, events[0]), events.drop_first())
    }
}

/// One round of the accept loop: the next state and what to do now.
///
/// While running, an accepted connection is served, single-use, and the loop
/// goes on; an interrupt stops the loop. Once stopped, nothing is served any
/// more, whatever arrives.
pub fn step(state: State, event: Event) -> (round: (State, Action))
    ensures
        round.0 == next_state(state, event),
        round.1 == action_for(state, event),
        round.1 matches Action::Serve(policy) ==> !policy.keep_alive,
{
    match state {
        State::Running => match event {
            Event::Accepted => (
                State::Running,
                Action::Serve(ConnectionPolicy { keep_alive: false }),
            ),
            Event::Interrupt => (State::Stopped, Action::Stop),
        },
        State::Stopped => (State::Stopped, Action::Stop),
    }
}

/// A connection is served exactly when it is accepted while the loop is
/// running, and the loop stops exactly when it does not serve.
pub proof fn lemma_serves_only_while_running(state: State, event: Event)
    ensures
        action_for(state, event) is Serve <==> state is Running && event is Accepted,
        action_for(state, event) is Serve <==> next_state(state, event) is Running,
        action_for(state, event) is Stop <==> next_state(state, event) is Stopped,
{
}

/// An interrupt stops the loop from any state.
pub proof fn lemma_interrupt_stops(state: State)
    ensures
        next_state(state, Event::Interrupt) == State::Stopped,
        action_for(state, Event::Interrupt) == Action::Stop,
{
}

/// Stopped is terminal: no sequence of events leaves it.
pub proof fn lemma_stopped_is_terminal(events: Seq<Event>)
    ensures
        run(State::Stopped, events) == State::Stopped,
    decreases events.len(),
{
    if events.len() > 0 {
        lemma_stopped_is_terminal(events.drop_first());
    }
}

/// A running loop has stopped after a sequence of events exactly when an
/// interrupt was among them.
pub proof fn lemma_stops_on_first_interrupt(events: Seq<Event>)
    ensures
        run(State::Running, events) == State::Stopped <==> events.contains(Event::Interrupt),
    decreases events.len(),
{
    if events.len() > 0 {
        let rest = events.drop_first();
        if events[0] == Event::Interrupt {
            lemma_stopped_is_terminal(rest);
        } else {
            lemma_stops_on_first_interrupt(rest);
            if rest.contains(Event::Interrupt) {
                let i = choose|i: int| 0 <= i < rest.len() && rest[i] == Event::Interrupt;
                assert(events[i + 1] == Event::Interrupt);
            }
            if events.contains(Event::Interrupt) {
                let i = choose|i: int| 0 <= i < events.len() && events[i] == Event::Interrupt;
                assert(rest[i - 1] == Event::Interrupt);
            }
        }
    }
}

/// In a loop that starts out running, a connection is served exactly when
/// it is accepted before any interrupt has been seen: once interrupted, the
/// loop takes no new connection.
pub proof fn lemma_served_iff_accepted_before_interrupt(events: Seq<Event>, k: int)
    requires
        0 <= k < events.len(),
    ensures
        action_for(run(State::Running, events.take(k)), events[k]) is Serve <==> events[k]
            is Accepted && !events.take(k).contains(Event::Interrupt),
{
    lemma_stops_on_first_interrupt(events.take(k));
}

} // verus!
