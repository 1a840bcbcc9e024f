//! Graceful shutdown: the signal watcher that resolves once, on the first of
//! two OS signals, and the server loop's lifecycle state machine, which stops
//! accepting new connections the moment the signal is observed and exits only
//! after every in-flight request has completed.

use vstd::prelude::*;

verus! {

/// The lifecycle phase of the server loop.
#[derive(PartialEq, Eq, Structural, Clone, Copy, Debug)]
pub enum ServerPhase {
    /// Before the listener is bound.
    Starting,
    /// Bound and accepting new connections.
    Serving,
    /// The shutdown signal was observed; no new connections, in-flight
    /// requests still running.
    Draining,
    /// Every request has completed; the process is about to exit.
    Stopped,
}

/// An event the server loop reacts to.
#[derive(PartialEq, Eq, Structural, Clone, Copy, Debug)]
pub enum ServerEvent {
    /// The listener was bound and listening begins.
    BindOk,
    /// A new connection asks to be accepted.
    Accept,
    /// An in-flight request completed and its response was delivered.
    RequestDone,
    /// The signal watcher resolved.
    Signal,
}

/// The server loop's state: its phase and how many requests are in flight.
#[derive(PartialEq, Eq, Structural, Clone, Copy, Debug)]
pub struct ServerState {
    pub phase: ServerPhase,
    pub in_flight: u64,
}

/// The state a server starts in.
pub open spec fn spec_init() -> ServerState {
    ServerState { phase: ServerPhase::Starting, in_flight: 0 }
}

/// One transition of the lifecycle state machine. Events that a phase has no
/// use for leave the state unchanged; in particular an `Accept` outside the
/// `Serving` phase admits nothing.
pub open spec fn spec_step(s: ServerState, e: ServerEvent) -> ServerState {
    match (s.phase, e) {
        (ServerPhase::Starting, ServerEvent::BindOk) => ServerState {
            phase: ServerPhase::Serving,
            ..s
        },
        (ServerPhase::Starting, ServerEvent::Signal) => ServerState {
            phase: ServerPhase::Stopped,
            ..s
        },
        (ServerPhase::Serving, ServerEvent::Accept) => ServerState {
            in_flight: (s.in_flight + 1) as u64,
            ..s
        },
        (ServerPhase::Serving, ServerEvent::RequestDone) => if s.in_flight > 0 {
            ServerState { in_flight: (s.in_flight - 1) as u64, ..s }
        } else {
            s
        },
        (ServerPhase::Serving, ServerEvent::Signal) => if s.in_flight == 0 {
            ServerState { phase: ServerPhase::Stopped, ..s }
        } else {
            ServerState { phase: ServerPhase::Draining, ..s }
        },
        (ServerPhase::Draining, ServerEvent::RequestDone) => if s.in_flight <= 1 {
            ServerState { phase: ServerPhase::Stopped, in_flight: 0 }
        } else {
            ServerState { in_flight: (s.in_flight - 1) as u64, ..s }
        },
        _ => s,
    }
}

/// The state after a whole sequence of events.
pub open spec fn spec_run(s: ServerState, evs: Seq<ServerEvent>) -> ServerState
    decreases evs.len(),
{
    if evs.len() == 0 {
        s
    } else {
        spec_run(spec_step(s, evs[0]), evs.drop_first())
    }
}

/// The shutdown signal has been observed: the server is past accepting.
pub open spec fn spec_shutting_down(s: ServerState) -> bool {
    s.phase is Draining || s.phase is Stopped
}

impl ServerState {
    /// No request is in flight before the listener is bound or after the
    /// server has stopped, and at least one is while it drains.
    pub open spec fn wf(self) -> bool {
        &&& (self.phase is Starting ==> self.in_flight == 0)
        &&& (self.phase is Draining ==> self.in_flight >= 1)
        &&& (self.phase is Stopped ==> self.in_flight == 0)
    }

    /// New connections are accepted only while serving.
    pub open spec fn accepts_new(self) -> bool {
        self.phase is Serving
    }

    /// A fresh server, about to bind its listener.
    pub fn new() -> (s: ServerState)
        ensures
            s == spec_init(),
            s.wf(),
    {
        ServerState { phase: ServerPhase::Starting, in_flight: 0 }
    }

    /// Advances the state machine by one event. Returns whether the event
    /// was an `Accept` that was admitted: only a serving server admits one.
    pub fn step(&mut self, e: ServerEvent) -> (accepted: bool)
        requires
            old(self).wf(),
            e is Accept ==> old(self).in_flight < u64::MAX,
        ensures
            *final(self) == spec_step(*old(self), e),
            final(self).wf(),
            accepted == (old(self).accepts_new() && e is Accept),
    {
        match (self.phase, e) {
            (ServerPhase::Starting, ServerEvent::BindOk) => {
                self.phase = ServerPhase::Serving;
                false
            },
            (ServerPhase::Starting, ServerEvent::Signal) => {
                self.phase = ServerPhase::Stopped;
                false
            },
            (ServerPhase::Serving, ServerEvent::Accept) => {
                self.in_flight = self.in_flight + 1;
                true
            },
            (ServerPhase::Serving, ServerEvent::RequestDone) => {
                if self.in_flight > 0 {
                    self.in_flight = self.in_flight - 1;
                }
                false
            },
            (ServerPhase::Serving, ServerEvent::Signal) => {
                if self.in_flight == 0 {
                    self.phase = ServerPhase::Stopped;
                } else {
                    self.phase = ServerPhase::Draining;
                }
                false
            },
            (ServerPhase::Draining, ServerEvent::RequestDone) => {
                if self.in_flight <= 1 {
                    self.phase = ServerPhase::Stopped;
                    self.in_flight = 0;
                } else {
                    self.in_flight = self.in_flight - 1;
                }
                false
            },
            _ => false,
        }
    }
}

/// Once the server is past accepting it stays so: no single event brings a
/// draining or stopped server back to accepting.
pub proof fn lemma_shutting_down_stable(s: ServerState, e: ServerEvent)
    requires
        spec_shutting_down(s),
    ensures
        spec_shutting_down(spec_step(s, e)),
        !spec_step(s, e).accepts_new(),
{
}

/// Once the server is past accepting, no sequence of events brings it back:
/// every later state still refuses new connections.
pub proof fn lemma_shutting_down_stable_run(s: ServerState, evs: Seq<ServerEvent>)
    requires
        spec_shutting_down(s),
    ensures
        spec_shutting_down(spec_run(s, evs)),
        !spec_run(s, evs).accepts_new(),
    decreases evs.len(),
{
    if evs.len() > 0 {
        lemma_shutting_down_stable(s, evs[0]);
        lemma_shutting_down_stable_run(spec_step(s, evs[0]), evs.drop_first());
    }
}

/// Observing the shutdown signal stops acceptance for good: whatever state
/// the signal arrives in, no connection is accepted at any later point.
pub proof fn lemma_signal_stops_acceptance(s: ServerState, evs: Seq<ServerEvent>)
    ensures
        spec_shutting_down(spec_step(s, ServerEvent::Signal)),
        !spec_run(spec_step(s, ServerEvent::Signal), evs).accepts_new(),
{
    lemma_shutting_down_stable_run(spec_step(s, ServerEvent::Signal), evs);
}

/// The server exits only after the drain is complete: a transition into
/// `Stopped` leaves no request in flight, and a draining server with more
/// than one request in flight keeps draining, whatever the event.
pub proof fn lemma_drain_before_exit(s: ServerState, e: ServerEvent)
    requires
        s.wf(),
    ensures
        spec_step(s, e).phase is Stopped ==> spec_step(s, e).in_flight == 0,
        s.phase is Draining && s.in_flight > 1 ==> spec_step(s, e).phase is Draining,
        s.phase is Draining && spec_step(s, e).phase is Stopped ==> e is RequestDone
            && s.in_flight == 1,
{
}

/// The signal watcher: a race between the interrupt and the termination
/// subscription, resolved by whichever fires first, at most once.
#[derive(PartialEq, Eq, Structural, Clone, Copy, Debug)]
pub struct SignalWatcher {
    pub resolved: bool,
}

/// One poll of the two signal subscriptions: the watcher after it, and
/// whether the watcher resolves on this poll.
pub open spec fn spec_observe(w: SignalWatcher, interrupt: bool, terminate: bool) -> (
    SignalWatcher,
    bool,
) {
    (
        SignalWatcher { resolved: w.resolved || interrupt || terminate },
        !w.resolved && (interrupt || terminate),
    )
}

impl SignalWatcher {
    /// A watcher that has seen no signal yet.
    pub fn new() -> (w: SignalWatcher)
        ensures
            !w.resolved,
    {
        SignalWatcher { resolved: false }
    }

    /// Feeds one poll of the two subscriptions into the watcher: whether the
    /// interrupt and whether the termination subscription fired. Returns
    /// whether the watcher resolves on this poll; a watcher that has already
    /// resolved never resolves again.
    pub fn observe(&mut self, interrupt: bool, terminate: bool) -> (fired: bool)
        ensures
            (*final(self), fired) == spec_observe(*old(self), interrupt, terminate),
    {
        let was = self.resolved;
        self.resolved = was || interrupt || terminate;
        !was && (interrupt || terminate)
    }
}

/// The watcher resolves at most once: resolution is permanent, and after the
/// poll on which it resolved, no later poll resolves it again.
pub proof fn lemma_resolves_at_most_once(
    w: SignalWatcher,
    i1: bool,
    t1: bool,
    i2: bool,
    t2: bool,
)
    ensures
        spec_observe(w, i1, t1).1 ==> !spec_observe(spec_observe(w, i1, t1).0, i2, t2).1,
        spec_observe(w, i1, t1).0.resolved ==> spec_observe(spec_observe(w, i1, t1).0, i2, t2).0.resolved,
{
}

/// The race is fair to its two branches: which of the two signals fired
/// makes no difference to the watcher or to its resolution.
pub proof fn lemma_race_symmetric(w: SignalWatcher)
    ensures
        spec_observe(w, true, false) == spec_observe(w, false, true),
{
}

} // verus!
