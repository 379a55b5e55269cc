//! The session orchestrator: what the receiver does when one of its event
//! sources fires.
//!
//! The orchestrator owns no handle. It is told what happened, as an
//! [`Event`], and answers with the [`Action`]s that its owner is to carry
//! out, in order. Its whole behaviour is the transition function
//! [`spec_step`].
//!
//! The record of automatic reconnection attempts is cleared when discovery
//! pushes credentials, and kept (pruned) when a controller drops.

use crate::credentials::Credentials;
use crate::reconnect::{lemma_stale_prefix, spec_prune, ReconnectWindow, RECONNECT_LIMIT};
use vstd::prelude::*;

verus! {

/// What an event source reports.
#[derive(Clone, Debug, PartialEq, Eq)]
pub enum Event {
    /// Remote discovery pushed a fresh set of credentials.
    Discovered(Credentials),
    /// The connection attempt in flight resolved to a session.
    Connected,
    /// The connection attempt in flight resolved to an error.
    ConnectionFailed,
    /// The process received an interrupt signal.
    Interrupt,
    /// The task of the live playback controller completed.
    ControllerFinished,
    /// The player reported telemetry.
    Telemetry,
}

/// A fault that the orchestrator met and recovered from.
#[derive(Clone, Copy, Debug, PartialEq, Eq, Structural)]
pub enum Fault {
    /// The connection attempt failed; nothing retries it.
    ConnectionFailed,
    /// The controller ended though no shutdown was asked for.
    UnexpectedDrop,
    /// The controller dropped too often; no reconnection is attempted.
    ReconnectRefused,
}

/// One thing for the orchestrator's owner to do.
#[derive(Clone, Copy, Debug, PartialEq, Eq, Structural)]
pub enum Action {
    /// Ask the live controller to shut down.
    ShutdownController,
    /// Let go of the controller and of its event channel; a task of it that
    /// still runs finishes on its own.
    ReleaseController,
    /// Begin a connection attempt with the pending credentials, in place of
    /// any attempt in flight.
    Connect,
    /// Build the mixer, sink and player, a fresh controller and event channel
    /// on the new session, and a fresh pipe bound to both.
    StartSession,
    /// Put a fault on record.
    Report(Fault),
    /// Stop: the orchestrator has finished.
    Terminate,
}

/// The orchestrator's state.
pub struct OrchestratorState {
    /// Whether discovery pushes are listened to.
    pub discovery: bool,
    /// Whether a playback controller is live.
    pub controller: bool,
    /// Whether an interrupt has asked for shutdown.
    pub shutdown_requested: bool,
    /// Whether a session has been replaced or lost since the start.
    pub reconnecting: bool,
    /// The credentials of the connection attempt in flight.
    pub pending: Option<Credentials>,
    /// The credentials of the last connection that succeeded.
    pub last_credentials: Option<Credentials>,
    /// The automatic reconnection attempts on record.
    pub window: Seq<u64>,
    /// Whether the orchestrator has finished.
    pub terminated: bool,
}

/// The state at the start, and what to do first.
pub open spec fn spec_start(discovery: bool, credentials: Option<Credentials>) -> (
    OrchestratorState,
    Seq<Action>,
) {
    (
        OrchestratorState {
            discovery,
            controller: false,
            shutdown_requested: false,
            reconnecting: false,
            pending: credentials,
            last_credentials: None,
            window: Seq::empty(),
            terminated: false,
        },
        if credentials is Some {
            seq![Action::Connect]
        } else {
            Seq::empty()
        },
    )
}

/// Discovery pushed `credentials`: a live controller is shut down and let
/// go, the reconnection record is cleared, and a connection attempt with the
/// new credentials replaces any in flight.
pub open spec fn spec_on_discovered(s: OrchestratorState, credentials: Credentials) -> (
    OrchestratorState,
    Seq<Action>,
) {
    if !s.discovery {
        (s, Seq::empty())
    } else {
        (
            OrchestratorState {
                controller: false,
                reconnecting: s.reconnecting || s.controller,
                pending: Some(credentials),
                window: Seq::empty(),
                ..s
            },
            if s.controller {
                seq![Action::ShutdownController, Action::ReleaseController, Action::Connect]
            } else {
                seq![Action::Connect]
            },
        )
    }
}

/// The attempt in flight resolved to a session: its credentials become the
/// last good ones, and a controller is started on the session.
pub open spec fn spec_on_connected(s: OrchestratorState) -> (OrchestratorState, Seq<Action>) {
    if s.pending is None {
        (s, Seq::empty())
    } else {
        (
            OrchestratorState {
                controller: true,
                pending: None,
                last_credentials: s.pending,
                ..s
            },
            if s.controller {
                seq![Action::ReleaseController, Action::StartSession]
            } else {
                seq![Action::StartSession]
            },
        )
    }
}

/// The attempt in flight failed: the slot is emptied, and nothing retries.
pub open spec fn spec_on_connection_failed(s: OrchestratorState) -> (
    OrchestratorState,
    Seq<Action>,
) {
    if s.pending is None {
        (s, Seq::empty())
    } else {
        (
            OrchestratorState { pending: None, ..s },
            seq![Action::Report(Fault::ConnectionFailed)],
        )
    }
}

/// An interrupt: the first asks a live controller to shut down and is
/// remembered, the second ends the orchestrator.
pub open spec fn spec_on_interrupt(s: OrchestratorState) -> (OrchestratorState, Seq<Action>) {
    if s.shutdown_requested {
        (OrchestratorState { terminated: true, ..s }, seq![Action::Terminate])
    } else {
        (
            OrchestratorState { shutdown_requested: true, ..s },
            if s.controller {
                seq![Action::ShutdownController]
            } else {
                Seq::empty()
            },
        )
    }
}

/// The controller's task completed at `now`. After a shutdown request this
/// ends the orchestrator. Otherwise the controller dropped: it is let go, the
/// reconnection record is pruned, and, where credentials of an earlier
/// success are known and the record has room, one reconnection attempt is put
/// on record and begun.
pub open spec fn spec_on_controller_finished(s: OrchestratorState, now: u64) -> (
    OrchestratorState,
    Seq<Action>,
) {
    let pruned = spec_prune(s.window, now);
    if !s.controller {
        (s, Seq::empty())
    } else if s.shutdown_requested {
        (OrchestratorState { controller: false, terminated: true, ..s }, seq![Action::Terminate])
    } else if s.last_credentials is None {
        (
            OrchestratorState { controller: false, reconnecting: true, window: pruned, ..s },
            seq![Action::Report(Fault::UnexpectedDrop), Action::ReleaseController],
        )
    } else if pruned.len() >= RECONNECT_LIMIT {
        (
            OrchestratorState { controller: false, reconnecting: true, window: pruned, ..s },
            seq![
                Action::Report(Fault::UnexpectedDrop),
                Action::ReleaseController,
                Action::Report(Fault::ReconnectRefused),
            ],
        )
    } else {
        (
            OrchestratorState {
                controller: false,
                reconnecting: true,
                window: pruned.push(now),
                pending: s.last_credentials,
                ..s
            },
            seq![Action::Report(Fault::UnexpectedDrop), Action::ReleaseController, Action::Connect],
        )
    }
}

/// The orchestrator's transition function: the state after `event` was seen
/// at `now`, and what to do about it. A finished orchestrator ignores every
/// event; telemetry changes nothing.
pub open spec fn spec_step(s: OrchestratorState, event: Event, now: u64) -> (
    OrchestratorState,
    Seq<Action>,
) {
    if s.terminated {
        (s, Seq::empty())
    } else {
        match event {
            Event::Discovered(credentials) => spec_on_discovered(s, credentials),
            Event::Connected => spec_on_connected(s),
            Event::ConnectionFailed => spec_on_connection_failed(s),
            Event::Interrupt => spec_on_interrupt(s),
            Event::ControllerFinished => spec_on_controller_finished(s, now),
            Event::Telemetry => (s, Seq::empty()),
        }
    }
}

/// How often `action` occurs in `actions`.
pub open spec fn spec_count(actions: Seq<Action>, action: Action) -> nat {
    actions.filter(|a: Action| a == action).len()
}

/// What holds of every state that the orchestrator reaches: the reconnection
/// record is within its limit, no connection attempt is in flight while a
/// controller is live, and a live controller's credentials are known.
pub open spec fn spec_consistent(s: OrchestratorState) -> bool {
    &&& s.window.len() <= RECONNECT_LIMIT
    &&& s.controller ==> s.pending is None
    &&& s.controller ==> s.last_credentials is Some
}

/// The start is consistent, and every step keeps the state consistent: at
/// most one controller is live, and none while a connection attempt is in
/// flight.
pub proof fn lemma_consistency(s: OrchestratorState, event: Event, now: u64)
    requires
        spec_consistent(s),
    ensures
        spec_consistent(spec_step(s, event, now).0),
        forall|discovery: bool, credentials: Option<Credentials>|
            spec_consistent(#[trigger] spec_start(discovery, credentials).0),
{
    lemma_stale_prefix(s.window, now);
}

/// A request for shutdown is never withdrawn, and a finished orchestrator
/// stays finished and asks for nothing more.
pub proof fn lemma_shutdown_is_final(s: OrchestratorState, event: Event, now: u64)
    ensures
        s.shutdown_requested ==> spec_step(s, event, now).0.shutdown_requested,
        s.terminated ==> spec_step(s, event, now) == (s, Seq::<Action>::empty()),
{
}

/// When the controller completes after a shutdown was requested, the
/// orchestrator terminates and does nothing else: it begins no connection
/// attempt and leaves the reconnection record as it was. With
/// [`lemma_shutdown_is_final`] this holds however the events before it were
/// interleaved.
pub proof fn lemma_completion_after_shutdown(s: OrchestratorState, now: u64)
    requires
        s.shutdown_requested,
        s.controller,
        !s.terminated,
    ensures
        spec_step(s, Event::ControllerFinished, now).1 == seq![Action::Terminate],
        spec_count(spec_step(s, Event::ControllerFinished, now).1, Action::Connect) == 0,
        spec_step(s, Event::ControllerFinished, now).0.terminated,
        spec_step(s, Event::ControllerFinished, now).0.pending == s.pending,
        spec_step(s, Event::ControllerFinished, now).0.window == s.window,
{
    reveal_with_fuel(Seq::filter, 2);
}

/// The state after a run of events, each seen at its own time.
pub open spec fn spec_run(s: OrchestratorState, events: Seq<(Event, u64)>) -> OrchestratorState
    decreases events.len(),
{
    if events.len() == 0 {
        s
    } else {
        spec_step(spec_run(s, events.drop_last()), events.last().0, events.last().1).0
    }
}

/// Whatever events follow, and in whatever order: a consistent state stays
/// consistent, a request for shutdown stays on record, and a finished
/// orchestrator stays as it is.
pub proof fn lemma_run(s: OrchestratorState, events: Seq<(Event, u64)>)
    ensures
        spec_consistent(s) ==> spec_consistent(spec_run(s, events)),
        s.shutdown_requested ==> spec_run(s, events).shutdown_requested,
        s.terminated ==> spec_run(s, events) == s,
    decreases events.len(),
{
    if events.len() > 0 {
        let before = spec_run(s, events.drop_last());
        lemma_run(s, events.drop_last());
        lemma_shutdown_is_final(before, events.last().0, events.last().1);
        if spec_consistent(s) {
            lemma_consistency(before, events.last().0, events.last().1);
        }
    }
}

/// After a request for shutdown, however the events that follow it are
/// interleaved, the completion of a live controller terminates the
/// orchestrator, and no completion begins a connection attempt.
pub proof fn lemma_shutdown_in_all_interleavings(
    s: OrchestratorState,
    events: Seq<(Event, u64)>,
    now: u64,
)
    requires
        s.shutdown_requested,
    ensures
        spec_count(
            spec_step(spec_run(s, events), Event::ControllerFinished, now).1,
            Action::Connect,
        ) == 0,
        spec_run(s, events).controller ==> spec_step(
            spec_run(s, events),
            Event::ControllerFinished,
            now,
        ).0.terminated,
        spec_run(s, events).controller && !spec_run(s, events).terminated ==> spec_step(
            spec_run(s, events),
            Event::ControllerFinished,
            now,
        ).1 == seq![Action::Terminate],
{
    lemma_run(s, events);
    reveal_with_fuel(Seq::filter, 2);
}

/// When the controller completes though no shutdown was requested, the
/// credentials of the last success are known and the reconnection record has
/// room, exactly one connection attempt is begun, with those credentials, and
/// exactly one attempt is put on record. The controller is gone afterwards,
/// so the same completion seen again begins nothing.
pub proof fn lemma_unexpected_drop_reconnects_once(s: OrchestratorState, now: u64, later: u64)
    requires
        !s.shutdown_requested,
        s.controller,
        !s.terminated,
        s.last_credentials is Some,
        spec_prune(s.window, now).len() < RECONNECT_LIMIT,
    ensures
        spec_count(spec_step(s, Event::ControllerFinished, now).1, Action::Connect) == 1,
        spec_step(s, Event::ControllerFinished, now).0.pending == s.last_credentials,
        spec_step(s, Event::ControllerFinished, now).0.window == spec_prune(s.window, now).push(
            now,
        ),
        !spec_step(s, Event::ControllerFinished, now).0.controller,
        spec_step(spec_step(s, Event::ControllerFinished, now).0, Event::ControllerFinished, later)
            == (spec_step(s, Event::ControllerFinished, now).0, Seq::<Action>::empty()),
{
    reveal_with_fuel(Seq::filter, 4);
}

/// When discovery pushes credentials while a controller is live, the
/// controller is shut down and let go, the reconnection record is cleared,
/// and one connection attempt with the pushed credentials begins.
pub proof fn lemma_discovery_replaces_session(
    s: OrchestratorState,
    credentials: Credentials,
    now: u64,
)
    requires
        s.discovery,
        s.controller,
        !s.terminated,
    ensures
        spec_step(s, Event::Discovered(credentials), now).1 == seq![
            Action::ShutdownController,
            Action::ReleaseController,
            Action::Connect,
        ],
        spec_step(s, Event::Discovered(credentials), now).0.window == Seq::<u64>::empty(),
        spec_step(s, Event::Discovered(credentials), now).0.pending == Some(credentials),
        !spec_step(s, Event::Discovered(credentials), now).0.controller,
{
}

/// The connection attempt in flight.
enum Attempt {
    /// None is in flight.
    Idle,
    /// One with credentials that discovery pushed, or that were given at the
    /// start.
    Fresh(Credentials),
    /// One with the credentials of the last success.
    Retry,
}

/// The session orchestrator.
pub struct Orchestrator {
    discovery: bool,
    controller: bool,
    shutdown_requested: bool,
    reconnecting: bool,
    attempt: Attempt,
    last_credentials: Option<Credentials>,
    window: ReconnectWindow,
    terminated: bool,
}

impl View for Orchestrator {
    type V = OrchestratorState;

    closed spec fn view(&self) -> OrchestratorState {
        OrchestratorState {
            discovery: self.discovery,
            controller: self.controller,
            shutdown_requested: self.shutdown_requested,
            reconnecting: self.reconnecting,
            pending: match self.attempt {
                Attempt::Idle => None,
                Attempt::Fresh(credentials) => Some(credentials),
                Attempt::Retry => self.last_credentials,
            },
            last_credentials: self.last_credentials,
            window: self.window@,
            terminated: self.terminated,
        }
    }
}

impl Orchestrator {
    /// An orchestrator at its start. With `credentials` it begins to connect
    /// at once.
    pub fn new(discovery: bool, credentials: Option<Credentials>) -> (r: (
        Orchestrator,
        Vec<Action>,
    ))
        ensures
            r.0@ == spec_start(discovery, credentials).0,
            r.1@ == spec_start(discovery, credentials).1,
    {
        let mut actions: Vec<Action> = Vec::new();
        let attempt = match credentials {
            Some(c) => {
                actions.push(Action::Connect);
                Attempt::Fresh(c)
            },
            None => Attempt::Idle,
        };
        let orchestrator = Orchestrator {
            discovery,
            controller: false,
            shutdown_requested: false,
            reconnecting: false,
            attempt,
            last_credentials: None,
            window: ReconnectWindow::new(),
            terminated: false,
        };
        (orchestrator, actions)
    }

    /// Takes note of `event`, seen at `now` (in seconds, on the clock of the
    /// reconnection record), and says what to do about it.
    pub fn step(&mut self, event: Event, now: u64) -> (actions: Vec<Action>)
        ensures
            final(self)@ == spec_step(old(self)@, event, now).0,
            actions@ == spec_step(old(self)@, event, now).1,
    {
        let mut actions: Vec<Action> = Vec::new();
        if self.terminated {
            return actions;
        }
        match event {
            Event::Discovered(credentials) => {
                if self.discovery {
                    if self.controller {
                        actions.push(Action::ShutdownController);
                        actions.push(Action::ReleaseController);
                        self.reconnecting = true;
                    }
                    actions.push(Action::Connect);
                    self.controller = false;
                    self.window.clear();
                    self.attempt = Attempt::Fresh(credentials);
                }
            },
            Event::Connected => {
                let mut attempt = Attempt::Idle;
                core::mem::swap(&mut self.attempt, &mut attempt);
                match attempt {
                    Attempt::Idle => {},
                    Attempt::Fresh(credentials) => {
                        self.last_credentials = Some(credentials);
                        if self.controller {
                            actions.push(Action::ReleaseController);
                        }
                        actions.push(Action::StartSession);
                        self.controller = true;
                    },
                    Attempt::Retry => {
                        if self.last_credentials.is_some() {
                            if self.controller {
                                actions.push(Action::ReleaseController);
                            }
                            actions.push(Action::StartSession);
                            self.controller = true;
                        }
                    },
                }
            },
            Event::ConnectionFailed => {
                let mut attempt = Attempt::Idle;
                core::mem::swap(&mut self.attempt, &mut attempt);
                match attempt {
                    Attempt::Idle => {},
                    Attempt::Fresh(_) => {
                        actions.push(Action::Report(Fault::ConnectionFailed));
                    },
                    Attempt::Retry => {
                        if self.last_credentials.is_some() {
                            actions.push(Action::Report(Fault::ConnectionFailed));
                        }
                    },
                }
            },
            Event::Interrupt => {
                if self.shutdown_requested {
                    self.terminated = true;
                    actions.push(Action::Terminate);
                } else {
                    self.shutdown_requested = true;
                    if self.controller {
                        actions.push(Action::ShutdownController);
                    }
                }
            },
            Event::ControllerFinished => {
                if self.controller {
                    self.controller = false;
                    if self.shutdown_requested {
                        self.terminated = true;
                        actions.push(Action::Terminate);
                    } else {
                        self.reconnecting = true;
                        actions.push(Action::Report(Fault::UnexpectedDrop));
                        actions.push(Action::ReleaseController);
                        if self.last_credentials.is_some() {
                            if self.window.try_attempt(now) {
                                self.attempt = Attempt::Retry;
                                actions.push(Action::Connect);
                            } else {
                                actions.push(Action::Report(Fault::ReconnectRefused));
                            }
                        } else {
                            self.window.prune(now);
                        }
                    }
                }
            },
            Event::Telemetry => {},
        }
        actions
    }

    /// Whether discovery pushes are listened to.
    pub fn discovery_enabled(&self) -> (b: bool)
        ensures
            b == self@.discovery,
    {
        self.discovery
    }

    /// Whether a playback controller is live.
    pub fn controller_live(&self) -> (b: bool)
        ensures
            b == self@.controller,
    {
        self.controller
    }

    /// Whether an interrupt has asked for shutdown.
    pub fn shutdown_requested(&self) -> (b: bool)
        ensures
            b == self@.shutdown_requested,
    {
        self.shutdown_requested
    }

    /// Whether a session has been replaced or lost since the start.
    pub fn reconnecting(&self) -> (b: bool)
        ensures
            b == self@.reconnecting,
    {
        self.reconnecting
    }

    /// Whether the orchestrator has finished.
    pub fn is_terminated(&self) -> (b: bool)
        ensures
            b == self@.terminated,
    {
        self.terminated
    }

    /// The automatic reconnection attempts on record, oldest first.
    pub fn reconnect_attempts(&self) -> (stamps: Vec<u64>)
        ensures
            stamps@ == self@.window,
            stamps@.len() <= RECONNECT_LIMIT,
    {
        let _count = self.window.len();
        self.window.attempts()
    }

    /// The credentials of the last connection that succeeded.
    pub fn last_credentials(&self) -> (r: Option<&Credentials>)
        ensures
            r is Some <==> self@.last_credentials is Some,
            r matches Some(c) ==> self@.last_credentials == Some(*c),
    {
        self.last_credentials.as_ref()
    }

    /// The credentials of the connection attempt in flight: those to connect
    /// with when [`Action::Connect`] is due.
    pub fn pending_credentials(&self) -> (r: Option<&Credentials>)
        ensures
            r is Some <==> self@.pending is Some,
            r matches Some(c) ==> self@.pending == Some(*c),
    {
        match &self.attempt {
            Attempt::Idle => None,
            Attempt::Fresh(credentials) => Some(credentials),
            Attempt::Retry => self.last_credentials.as_ref(),
        }
    }
}

} // verus!
