//! The encrypted stream after the handshake, and its one-shot shutdown.
//!
//! Reads, writes and flushes go through the readiness translator; closing
//! sends a close-notify record at most once in the stream's life, drains the
//! records still waiting, then closes the transport.
use vstd::prelude::*;
use crate::readiness::Fault;

verus! {

/// A transport and the session engine that encrypts over it.
pub struct TlsStream<S, C> {
    pub io: S,
    pub session: C,
    /// Set once a close-notify record has been queued; never cleared.
    pub is_shutdown: bool,
}

/// What closing asks of its caller after one round of draining.
#[derive(PartialEq, Eq, Debug)]
pub enum CloseStep<E> {
    /// Everything is drained: close the transport itself.
    CloseTransport,
    /// The transport is not ready: end this poll as pending, and close again
    /// on the next wake-up.
    Suspend,
    /// Draining failed for good.
    Fail(Fault<E>),
}

/// Whether a close that finds the stream in state `shutdown` queues a close-notify record.
pub open spec fn spec_close_sends_notify(shutdown: bool) -> bool {
    !shutdown
}

/// What closing does once a drain round has finished with `r`.
pub open spec fn spec_after_drain<E>(r: Result<(), Fault<E>>) -> CloseStep<E> {
    match r {
        Ok(()) => CloseStep::CloseTransport,
        Err(Fault::WouldBlock) => CloseStep::Suspend,
        Err(e) => CloseStep::Fail(e),
    }
}

/// Close-notify records queued by `k` closes of a stream whose flag starts as `shutdown`.
pub open spec fn notifies_after_closes(shutdown: bool, k: nat) -> nat
    decreases k,
{
    if k == 0 {
        0
    } else {
        (if spec_close_sends_notify(shutdown) { 1nat } else { 0nat }) + notifies_after_closes(true, (k - 1) as nat)
    }
}

impl<S, C> TlsStream<S, C> {
    /// A stream over `io` and `session`, not shut down.
    pub fn new(io: S, session: C) -> (t: Self)
        ensures
            t.io == io,
            t.session == session,
            !t.is_shutdown,
    {
        TlsStream { io, session, is_shutdown: false }
    }

    /// The transport and the engine, borrowed together for one operation.
    pub fn get_mut(&mut self) -> (parts: (&mut S, &mut C))
        ensures
            *parts.0 == old(self).io,
            *parts.1 == old(self).session,
            final(self).io == *final(parts.0),
            final(self).session == *final(parts.1),
            final(self).is_shutdown == old(self).is_shutdown,
    {
        (&mut self.io, &mut self.session)
    }

    /// Whether a close-notify record has been queued.
    pub fn is_shutdown(&self) -> (r: bool)
        ensures
            r == self.is_shutdown,
    {
        self.is_shutdown
    }

    /// The first step of a close: returns whether the caller must now have
    /// the engine queue a close-notify record.  That is so on the first close
    /// only; afterwards the stream stays shut down.
    pub fn begin_close(&mut self) -> (send_notify: bool)
        ensures
            send_notify == spec_close_sends_notify(old(self).is_shutdown),
            final(self).is_shutdown,
            final(self).io == old(self).io,
            final(self).session == old(self).session,
    {
        if !self.is_shutdown {
            self.is_shutdown = true;
            true
        } else {
            false
        }
    }
}

/// Decides what a close does once one round of draining has finished with `r`.
pub fn after_drain<E>(r: Result<(), Fault<E>>) -> (step: CloseStep<E>)
    ensures
        step == spec_after_drain(r),
{
    match r {
        Ok(()) => CloseStep::CloseTransport,
        Err(Fault::WouldBlock) => CloseStep::Suspend,
        Err(e) => CloseStep::Fail(e),
    }
}

/// However many times a fresh stream is closed, once or more, exactly one
/// close-notify record is queued; a stream already shut down queues none.
pub proof fn lemma_close_is_idempotent(k: nat)
    ensures
        k >= 1 ==> notifies_after_closes(false, k) == 1,
        notifies_after_closes(true, k) == 0,
    decreases k,
{
    if k > 0 {
        lemma_close_is_idempotent((k - 1) as nat);
    }
}

} // verus!
