//! Readiness of the remote services that this node depends on.
//!
//! A gate is ready exactly while the most recent attempt to connect to its
//! service has succeeded and that connection has not been torn down since.

use vstd::prelude::*;
use crate::status::Rejection;

verus! {

/// What happens to the connection that a gate watches.
#[derive(Clone, Copy, Debug, PartialEq, Eq, Structural)]
pub enum ConnectionEvent {
    /// An attempt to connect begins.
    AttemptStarted,
    /// The attempt succeeded: the connection stands.
    Connected,
    /// The attempt failed.
    AttemptFailed,
    /// The connection that stood was torn down.
    TornDown,
}

/// Whether a gate is ready after `events`, starting from a fresh gate.
pub open spec fn ready_after(events: Seq<ConnectionEvent>) -> bool
    decreases events.len(),
{
    if events.len() == 0 {
        false
    } else {
        ready_after_event(ready_after(events.drop_last()), events.last())
    }
}

/// Whether a gate is ready after one event.
pub open spec fn ready_after_event(ready: bool, event: ConnectionEvent) -> bool {
    event == ConnectionEvent::Connected
}

/// A gate is ready exactly if something has happened and the last thing that
/// happened is a successful connection.
pub proof fn lemma_ready_means_connected_last(events: Seq<ConnectionEvent>)
    ensures
        ready_after(events) <==> (events.len() > 0 && events.last() == ConnectionEvent::Connected),
{
}

/// The readiness of one remote service.
#[derive(Clone, Copy, Debug)]
pub struct ReadinessGate {
    ready: bool,
}

impl ReadinessGate {
    /// Whether the service is reachable.
    pub closed spec fn ready(&self) -> bool {
        self.ready
    }

    /// A gate before anything has happened: not ready.
    pub fn new() -> (gate: Self)
        ensures
            !gate.ready(),
    {
        ReadinessGate { ready: false }
    }

    /// Whether the service is reachable.
    pub fn is_ready(&self) -> (ready: bool)
        ensures
            ready == self.ready(),
    {
        self.ready
    }

    /// Opens or closes this gate.
    pub fn store(&mut self, ready: bool)
        ensures
            final(self).ready() == ready,
    {
        self.ready = ready;
    }

    /// Takes note of what happened to the connection.
    pub fn observe(&mut self, event: ConnectionEvent)
        ensures
            final(self).ready() == ready_after_event(old(self).ready(), event),
    {
        self.ready = match event {
            ConnectionEvent::Connected => true,
            ConnectionEvent::AttemptStarted => false,
            ConnectionEvent::AttemptFailed => false,
            ConnectionEvent::TornDown => false,
        };
    }

    /// Takes note of a run of events, in order.
    pub fn observe_all(&mut self, events: &Vec<ConnectionEvent>)
        ensures
            events@.len() == 0 ==> final(self).ready() == old(self).ready(),
            events@.len() > 0 ==> final(self).ready() == (events@.last()
                == ConnectionEvent::Connected),
    {
        let mut i: usize = 0;
        while i < events.len()
            invariant
                i <= events.len(),
                i == 0 ==> self.ready() == old(self).ready(),
                i > 0 ==> self.ready() == (events@[i - 1] == ConnectionEvent::Connected),
            decreases events.len() - i,
        {
            self.observe(events[i]);
            i = i + 1;
        }
    }
}

/// Tracks readiness of each external service.
#[derive(Clone, Copy, Debug)]
pub struct AppReadiness {
    /// Readiness of the remote authority.
    pub sagittarius_ready: ReadinessGate,
}

impl AppReadiness {
    /// Whether every service is reachable.
    pub open spec fn ready(&self) -> bool {
        self.sagittarius_ready.ready()
    }

    /// The readiness at process start: nothing is reachable yet.
    pub fn new() -> (readiness: Self)
        ensures
            !readiness.ready(),
    {
        AppReadiness { sagittarius_ready: ReadinessGate::new() }
    }

    /// Whether every service is reachable: the conjunction of all gates.
    pub fn is_ready(&self) -> (ready: bool)
        ensures
            ready == self.ready(),
    {
        self.sagittarius_ready.is_ready()
    }

    /// Lets a call pass that is relayed to the remote authority, or turns it
    /// away at once while the authority is not reachable.
    pub fn intercept(&self) -> (passed: Result<(), Rejection>)
        ensures
            passed is Ok <==> self.ready(),
            passed matches Err(rejection) ==> rejection == Rejection::BackendNotReady,
    {
        if self.is_ready() {
            Ok(())
        } else {
            Err(Rejection::BackendNotReady)
        }
    }
}

impl Default for AppReadiness {
    fn default() -> (readiness: Self)
        ensures
            !readiness.ready(),
    {
        AppReadiness::new()
    }
}

/// A call is turned away before any connection has succeeded, let through right
/// after a successful connection, and turned away again once that connection
/// is torn down or a new attempt begins.
pub proof fn lemma_gating_follows_connection(events: Seq<ConnectionEvent>)
    ensures
        !ready_after(Seq::<ConnectionEvent>::empty()),
        ready_after(events.push(ConnectionEvent::Connected)),
        !ready_after(events.push(ConnectionEvent::Connected).push(ConnectionEvent::TornDown)),
        !ready_after(
            events.push(ConnectionEvent::Connected).push(ConnectionEvent::AttemptStarted),
        ),
        !ready_after(events.push(ConnectionEvent::AttemptFailed)),
{
}

} // verus!
