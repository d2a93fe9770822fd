//! The shared record of the running backend: the process handle and the port
//! it announced. It has two writers only, one that publishes a backend once
//! its handshake has succeeded and one that takes it away for shutdown.
//!
//! The record itself is plain data behind `&mut`: exclusive access is what
//! makes each write atomic. Whoever shares it between threads wraps it in a
//! lock and gets the same guarantees per critical section.

use crate::endpoint::{base_url, get_api_base_url};
use crate::handshake::lemma_address_names_port;
use vstd::prelude::*;

verus! {

/// The mathematical content of a [`SupervisorState`].
pub struct StateView<P> {
    pub process: Option<P>,
    pub port: Option<u16>,
}

impl<P> StateView<P> {
    /// The record before any backend was published, and after one was taken.
    pub open spec fn empty() -> Self {
        StateView { process: None, port: None }
    }

    /// The record of a backend that is up on `port`.
    pub open spec fn ready(process: P, port: u16) -> Self {
        StateView { process: Some(process), port: Some(port) }
    }

    /// A port is known exactly when a process is held.
    pub open spec fn wf(self) -> bool {
        self.process is Some <==> self.port is Some
    }

    /// Whether requests may be sent to the backend.
    pub open spec fn is_ready(self) -> bool {
        self.port is Some
    }

    /// The base address that callers are given, if any.
    pub open spec fn endpoint(self) -> Option<Seq<char>> {
        match self.port {
            Some(p) => Some(base_url(p)),
            None => None,
        }
    }

    /// What a caller that takes the process for shutdown receives.
    pub open spec fn taken(self) -> Option<P> {
        self.process
    }

    /// The record that taking the process leaves behind.
    pub open spec fn after_take(self) -> Self {
        Self::empty()
    }
}

/// The process handle of the backend and the port it listens on.
///
/// `P` is the handle type of whoever launches the process; the record only
/// stores it and hands it back.
pub struct SupervisorState<P> {
    process: Option<P>,
    port: Option<u16>,
}

impl<P> View for SupervisorState<P> {
    type V = StateView<P>;

    closed spec fn view(&self) -> StateView<P> {
        StateView { process: self.process, port: self.port }
    }
}

impl<P> SupervisorState<P> {
    /// The invariant of the record: see [`StateView::wf`].
    pub open spec fn wf(&self) -> bool {
        self@.wf()
    }

    /// An empty record: no process, no port.
    pub fn new() -> (state: Self)
        ensures
            state@ == StateView::<P>::empty(),
            state.wf(),
    {
        SupervisorState { process: None, port: None }
    }

    /// Whether a backend has been published and not yet taken away.
    pub fn is_ready(&self) -> (ready: bool)
        ensures
            ready == self@.is_ready(),
    {
        self.port.is_some()
    }

    /// The port of the published backend, if any.
    pub fn port(&self) -> (port: Option<u16>)
        ensures
            port == self@.port,
    {
        self.port
    }

    /// Publishes a backend whose handshake yielded `port`.
    ///
    /// Publishing over a backend that is still held is a programming error,
    /// so the record must be empty.
    pub fn set_ready(&mut self, process: P, port: u16)
        requires
            old(self).wf(),
            !old(self)@.is_ready(),
        ensures
            final(self)@ == StateView::ready(process, port),
            final(self).wf(),
    {
        self.process = Some(process);
        self.port = Some(port);
    }

    /// Publishes a backend unless one is already held, in which case the
    /// record stays as it was and the process comes back to the caller.
    pub fn try_set_ready(&mut self, process: P, port: u16) -> (refused: Option<P>)
        requires
            old(self).wf(),
        ensures
            final(self).wf(),
            old(self)@.is_ready() ==> refused == Some(process) && final(self)@ == old(self)@,
            !old(self)@.is_ready() ==> refused is None && final(self)@ == StateView::ready(
                process,
                port,
            ),
    {
        if self.port.is_some() {
            Some(process)
        } else {
            self.set_ready(process, port);
            None
        }
    }

    /// The base address of the backend, or `None` while it is not ready.
    pub fn current_endpoint(&self) -> (url: Option<String>)
        ensures
            url is Some <==> self@.is_ready(),
            url matches Some(text) ==> Some(text@) == self@.endpoint(),
    {
        match self.port {
            Some(p) => Some(get_api_base_url(p)),
            None => None,
        }
    }

    /// Removes the process handle and forgets the port, in one step: the
    /// caller that receives the handle is the only one that ever will.
    pub fn take_for_shutdown(&mut self) -> (process: Option<P>)
        ensures
            process == old(self)@.taken(),
            final(self)@ == old(self)@.after_take(),
            final(self).wf(),
    {
        self.port = None;
        self.process.take()
    }
}

/// Once a backend is published on a port, the endpoint is the loopback
/// address with exactly that port: it is the base address of the port, and of
/// no other port.
pub proof fn lemma_endpoint_after_set_ready<P>(process: P, port: u16)
    ensures
        StateView::ready(process, port).wf(),
        StateView::ready(process, port).is_ready(),
        StateView::ready(process, port).endpoint() == Some(base_url(port)),
        forall|other: u16|
            StateView::ready(process, port).endpoint() == Some(#[trigger] base_url(other))
                ==> other == port,
{
    assert forall|other: u16| base_url(other) == base_url(port) implies other == port by {
        lemma_address_names_port(other, port);
    }
}

/// Of two takes in a row, whatever ran between their critical sections
/// aside, the first receives the process that was held and the second
/// receives nothing and changes nothing.
pub proof fn lemma_take_is_idempotent<P>(state: StateView<P>)
    ensures
        state.after_take().taken() is None,
        state.after_take().after_take() == state.after_take(),
        state.after_take().wf(),
{
}

/// What `n` takes in a row receive, in the order in which they get hold of
/// the record.
pub open spec fn takes<P>(state: StateView<P>, n: nat) -> Seq<Option<P>>
    decreases n,
{
    if n == 0 {
        Seq::empty()
    } else {
        seq![state.taken()] + takes(state.after_take(), (n - 1) as nat)
    }
}

/// However many callers try to take the process, the first to get hold of
/// the record receives what it held and every later one receives nothing: a
/// process is handed to one caller at most.
pub proof fn lemma_one_winner<P>(state: StateView<P>, n: nat)
    ensures
        takes(state, n).len() == n,
        n > 0 ==> takes(state, n)[0] == state.process,
        forall|i: int| 1 <= i < n ==> (#[trigger] takes(state, n)[i]) is None,
    decreases n,
{
    if n > 0 {
        let rest = takes(state.after_take(), (n - 1) as nat);
        lemma_one_winner(state.after_take(), (n - 1) as nat);
        assert forall|i: int| 1 <= i < n implies (#[trigger] takes(state, n)[i]) is None by {
            assert(takes(state, n)[i] == rest[i - 1]);
            if i >= 2 {
                assert(rest[i - 1] is None);
            } else {
                assert(rest[0] == state.after_take().process);
            }
        }
    }
}

/// After a take the endpoint is gone, whatever the record held before.
pub proof fn lemma_not_ready_after_take<P>(state: StateView<P>)
    ensures
        !state.after_take().is_ready(),
        state.after_take().endpoint() is None,
{
}

} // verus!
