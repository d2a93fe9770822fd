//! The backend's lifetime as the supervisor sees it, and the supervisor
//! itself: the shared record together with the phase it is in. The endpoint
//! can be read in one phase only, `Ready`.

use crate::endpoint::base_url;
use crate::handshake::HandshakeError;
use crate::shutdown::{
    plan_for, run_shutdown, stop_comes_to, ExitReport, ShutdownError, ShutdownPlan,
};
use crate::supervisor::{StateView, SupervisorState};
use vstd::prelude::*;

verus! {

/// A phase of the backend's lifetime.
#[derive(Clone, Copy, Debug, PartialEq, Eq, Structural)]
pub enum Phase {
    /// Nothing has been launched.
    NotStarted,
    /// The process is being started.
    Launching,
    /// The process runs; its port is not known yet.
    AwaitingHandshake,
    /// The port is known and requests may be sent.
    Ready,
    /// The process was taken for shutdown and is being terminated.
    ShuttingDown,
    /// The shutdown has run, or there was nothing to shut down.
    Stopped,
    /// The launch or the handshake failed.
    Failed,
}

/// What can happen to the supervisor.
#[derive(Clone, Copy, Debug, PartialEq, Eq, Structural)]
pub enum Event {
    /// The host asks for the backend to be started.
    LaunchRequested,
    /// The process was started.
    Spawned,
    /// The process could not be started.
    SpawnFailed,
    /// The first line of output was a port.
    HandshakeSucceeded,
    /// No valid first line arrived.
    HandshakeFailed,
    /// The host is closing.
    ShutdownRequested,
    /// The process was terminated and reaped, or the attempt was given up.
    ShutdownFinished,
}

/// The phase that follows `phase` on `event`. An event that has no meaning in
/// a phase leaves it as it is.
pub open spec fn next_phase(phase: Phase, event: Event) -> Phase {
    match (phase, event) {
        (Phase::NotStarted, Event::LaunchRequested) => Phase::Launching,
        (Phase::Launching, Event::Spawned) => Phase::AwaitingHandshake,
        (Phase::Launching, Event::SpawnFailed) => Phase::Failed,
        (Phase::AwaitingHandshake, Event::HandshakeSucceeded) => Phase::Ready,
        (Phase::AwaitingHandshake, Event::HandshakeFailed) => Phase::Failed,
        (Phase::NotStarted, Event::ShutdownRequested) => Phase::Stopped,
        (Phase::Launching, Event::ShutdownRequested) => Phase::Stopped,
        (Phase::AwaitingHandshake, Event::ShutdownRequested) => Phase::ShuttingDown,
        (Phase::Ready, Event::ShutdownRequested) => Phase::ShuttingDown,
        (Phase::ShuttingDown, Event::ShutdownFinished) => Phase::Stopped,
        _ => phase,
    }
}

/// How far along its lifetime a phase lies. Both ends, `Stopped` and
/// `Failed`, lie last.
pub open spec fn rank(phase: Phase) -> nat {
    match phase {
        Phase::NotStarted => 0,
        Phase::Launching => 1,
        Phase::AwaitingHandshake => 2,
        Phase::Ready => 3,
        Phase::ShuttingDown => 4,
        Phase::Stopped => 5,
        Phase::Failed => 5,
    }
}

/// Whether requests may be sent to the backend in this phase.
pub open spec fn accepts_requests(phase: Phase) -> bool {
    phase == Phase::Ready
}

/// The event that the outcome of a handshake amounts to.
pub open spec fn handshake_event(outcome: Result<u16, HandshakeError>) -> Event {
    if outcome is Ok {
        Event::HandshakeSucceeded
    } else {
        Event::HandshakeFailed
    }
}

/// Computes the phase that follows `phase` on `event`.
pub fn advance(phase: Phase, event: Event) -> (next: Phase)
    ensures
        next == next_phase(phase, event),
{
    match event {
        Event::LaunchRequested => match phase {
            Phase::NotStarted => Phase::Launching,
            _ => phase,
        },
        Event::Spawned => match phase {
            Phase::Launching => Phase::AwaitingHandshake,
            _ => phase,
        },
        Event::SpawnFailed => match phase {
            Phase::Launching => Phase::Failed,
            _ => phase,
        },
        Event::HandshakeSucceeded => match phase {
            Phase::AwaitingHandshake => Phase::Ready,
            _ => phase,
        },
        Event::HandshakeFailed => match phase {
            Phase::AwaitingHandshake => Phase::Failed,
            _ => phase,
        },
        Event::ShutdownRequested => match phase {
            Phase::NotStarted | Phase::Launching => Phase::Stopped,
            Phase::AwaitingHandshake | Phase::Ready => Phase::ShuttingDown,
            _ => phase,
        },
        Event::ShutdownFinished => match phase {
            Phase::ShuttingDown => Phase::Stopped,
            _ => phase,
        },
    }
}

/// No event takes the backend back to an earlier phase.
pub proof fn lemma_no_way_back(phase: Phase, event: Event)
    ensures
        rank(next_phase(phase, event)) >= rank(phase),
        next_phase(phase, event) != phase ==> rank(next_phase(phase, event)) > rank(phase),
{
}

/// `Stopped` and `Failed` are final: no event leaves them.
pub proof fn lemma_ends_are_final(phase: Phase, event: Event)
    requires
        phase == Phase::Stopped || phase == Phase::Failed,
    ensures
        next_phase(phase, event) == phase,
{
}

/// `Ready` is entered by a successful handshake and in no other way, and
/// `Failed` from a launch or a handshake only.
pub proof fn lemma_entries(phase: Phase, event: Event)
    ensures
        next_phase(phase, event) == Phase::Ready && phase != Phase::Ready ==> phase
            == Phase::AwaitingHandshake && event == Event::HandshakeSucceeded,
        next_phase(phase, event) == Phase::Failed && phase != Phase::Failed ==> (phase
            == Phase::Launching && event == Event::SpawnFailed) || (phase
            == Phase::AwaitingHandshake && event == Event::HandshakeFailed),
{
}

/// A request to shut down ends readiness from every phase, and nothing
/// brings it back: past `Ready`, no event leads to a phase that accepts
/// requests.
pub proof fn lemma_shutdown_ends_readiness(phase: Phase, event: Event)
    ensures
        !accepts_requests(next_phase(phase, Event::ShutdownRequested)),
        rank(next_phase(phase, Event::ShutdownRequested)) > rank(Phase::Ready),
        rank(phase) > rank(Phase::Ready) ==> !accepts_requests(next_phase(phase, event)) && rank(
            next_phase(phase, event),
        ) > rank(Phase::Ready),
{
}

/// A whole shutdown, requested and finished, ends in `Stopped`, or stays in
/// `Failed` where the backend never came up.
pub proof fn lemma_shutdown_stops(phase: Phase)
    ensures
        ({
            let end = next_phase(
                next_phase(phase, Event::ShutdownRequested),
                Event::ShutdownFinished,
            );
            if phase == Phase::Failed {
                end == Phase::Failed
            } else {
                end == Phase::Stopped
            }
        }),
{
}

/// The shared record together with the phase of the backend's lifetime.
pub struct Supervisor<P> {
    phase: Phase,
    state: SupervisorState<P>,
}

impl<P> Supervisor<P> {
    /// The phase the supervisor is in.
    pub closed spec fn phase(&self) -> Phase {
        self.phase
    }

    /// The content of the shared record.
    pub closed spec fn record(&self) -> StateView<P> {
        self.state@
    }

    /// The record is well formed, and it holds a backend exactly in `Ready`.
    pub open spec fn wf(&self) -> bool {
        &&& self.record().wf()
        &&& self.record().is_ready() <==> self.phase() == Phase::Ready
    }

    /// A supervisor that has launched nothing.
    pub fn new() -> (supervisor: Self)
        ensures
            supervisor.wf(),
            supervisor.phase() == Phase::NotStarted,
            supervisor.record() == StateView::<P>::empty(),
    {
        Supervisor { phase: Phase::NotStarted, state: SupervisorState::new() }
    }

    /// The phase the supervisor is in.
    pub fn current_phase(&self) -> (phase: Phase)
        ensures
            phase == self.phase(),
    {
        self.phase
    }

    /// The port of the backend in `Ready`, and `None` in every other phase.
    pub fn port(&self) -> (port: Option<u16>)
        requires
            self.wf(),
        ensures
            port is Some <==> accepts_requests(self.phase()),
            port == self.record().port,
    {
        self.state.port()
    }

    /// The base address of the backend in `Ready`, and `None` in every other
    /// phase.
    pub fn current_endpoint(&self) -> (url: Option<String>)
        requires
            self.wf(),
        ensures
            url is Some <==> accepts_requests(self.phase()),
            url matches Some(text) ==> Some(text@) == self.record().endpoint(),
    {
        self.state.current_endpoint()
    }

    /// Notes that the host asks for the backend. Returns whether the caller
    /// is to start the process: only the first request in a lifetime is.
    pub fn begin_launch(&mut self) -> (spawn: bool)
        requires
            old(self).wf(),
        ensures
            final(self).wf(),
            final(self).phase() == next_phase(old(self).phase(), Event::LaunchRequested),
            final(self).record() == old(self).record(),
            spawn == (old(self).phase() == Phase::NotStarted),
    {
        let spawn = self.phase == Phase::NotStarted;
        self.phase = advance(self.phase, Event::LaunchRequested);
        spawn
    }

    /// Notes that the process was started. Returns whether the caller is to
    /// go on to the handshake; where it is not (the host has begun to close
    /// meanwhile), the caller terminates the process it has just started.
    pub fn spawned(&mut self) -> (go_on: bool)
        requires
            old(self).wf(),
        ensures
            final(self).wf(),
            final(self).phase() == next_phase(old(self).phase(), Event::Spawned),
            final(self).record() == old(self).record(),
            go_on == (old(self).phase() == Phase::Launching),
    {
        let go_on = self.phase == Phase::Launching;
        self.phase = advance(self.phase, Event::Spawned);
        go_on
    }

    /// Notes that the process could not be started.
    pub fn spawn_failed(&mut self)
        requires
            old(self).wf(),
        ensures
            final(self).wf(),
            final(self).phase() == next_phase(old(self).phase(), Event::SpawnFailed),
            final(self).record() == old(self).record(),
    {
        self.phase = advance(self.phase, Event::SpawnFailed);
    }

    /// Takes the outcome of the handshake. A port that arrives while the
    /// supervisor awaits it publishes the process, and the backend is ready.
    /// In every other case the process comes back to the caller, who
    /// terminates it, and the record stays as it was.
    pub fn handshake_done(&mut self, process: P, outcome: Result<u16, HandshakeError>) -> (discard:
        Option<P>)
        requires
            old(self).wf(),
        ensures
            final(self).wf(),
            final(self).phase() == next_phase(old(self).phase(), handshake_event(outcome)),
            match outcome {
                Ok(port) if old(self).phase() == Phase::AwaitingHandshake => {
                    &&& discard is None
                    &&& final(self).record() == StateView::ready(process, port)
                    &&& final(self).record().endpoint() == Some(base_url(port))
                },
                _ => {
                    &&& discard == Some(process)
                    &&& final(self).record() == old(self).record()
                },
            },
    {
        match outcome {
            Ok(port) => {
                if self.phase == Phase::AwaitingHandshake {
                    self.state.set_ready(process, port);
                    self.phase = Phase::Ready;
                    None
                } else {
                    Some(process)
                }
            },
            Err(_) => {
                self.phase = advance(self.phase, Event::HandshakeFailed);
                Some(process)
            },
        }
    }

    /// Notes that the host is closing, and takes the process out of the
    /// record for the caller to terminate. Whatever the phase was, the
    /// endpoint is gone afterwards, and a second request finds nothing to do.
    pub fn request_shutdown(&mut self) -> (plan: ShutdownPlan<P>)
        requires
            old(self).wf(),
        ensures
            final(self).wf(),
            final(self).phase() == next_phase(old(self).phase(), Event::ShutdownRequested),
            final(self).record() == StateView::<P>::empty(),
            !accepts_requests(final(self).phase()),
            plan == plan_for(old(self).record()),
            plan is Terminate <==> old(self).phase() == Phase::Ready,
    {
        self.phase = advance(self.phase, Event::ShutdownRequested);
        crate::shutdown::begin_shutdown(&mut self.state)
    }

    /// Runs a whole shutdown in one critical section: takes the process,
    /// stops it through `terminate` and `wait`, and notes the end. Where no
    /// process is held it succeeds at once. Whatever the phase was and
    /// whatever the verdict is, the endpoint is gone afterwards.
    pub fn shutdown<K, W>(&mut self, terminate: K, wait: W) -> (verdict: Result<
        (),
        ShutdownError,
    >) where K: FnOnce(P) -> (P, ExitReport), W: FnOnce(P) -> ExitReport
        requires
            old(self).wf(),
            forall|p: P| terminate.requires((p,)),
            forall|p: P| wait.requires((p,)),
        ensures
            final(self).wf(),
            final(self).phase() == next_phase(
                next_phase(old(self).phase(), Event::ShutdownRequested),
                Event::ShutdownFinished,
            ),
            final(self).record() == StateView::<P>::empty(),
            !accepts_requests(final(self).phase()),
            match old(self).record().process {
                None => verdict == Ok::<(), ShutdownError>(()),
                Some(process) => stop_comes_to(process, terminate, wait, verdict),
            },
    {
        let plan = self.request_shutdown();
        let verdict = run_shutdown(plan, terminate, wait);
        self.finish_shutdown();
        verdict
    }

    /// Notes that the shutdown has run its course, with or without a warning.
    pub fn finish_shutdown(&mut self)
        requires
            old(self).wf(),
        ensures
            final(self).wf(),
            final(self).phase() == next_phase(old(self).phase(), Event::ShutdownFinished),
            final(self).record() == old(self).record(),
    {
        self.phase = advance(self.phase, Event::ShutdownFinished);
    }
}

} // verus!
