//! The handshake driver: a resumable computation that runs engine rounds
//! until the handshake is over, suspends when the transport is not ready, and
//! hands its stream out exactly once.
//!
//! The caller performs the outside work (asking the engine whether it is
//! still handshaking, running one round of its I/O) and reports each result;
//! the driver answers with what to do next.
use vstd::prelude::*;
use crate::readiness::Fault;

verus! {

/// What the driver asks of its caller next.
#[derive(PartialEq, Eq, Debug)]
pub enum HandshakeStep<S, E> {
    /// Run one round of the engine's I/O through the readiness translator.
    RunRound,
    /// The round went through: ask the engine again whether it is handshaking.
    CheckAgain,
    /// The transport is not ready: end this poll as pending, keep all state.
    Suspend,
    /// The handshake is over: here is the stream.
    Complete(S),
    /// The round failed for good: the stream is dropped and the failure reported.
    Fail(Fault<E>),
}

/// Owns the stream while the handshake is in progress; `None` once consumed.
pub struct MidHandshake<S> {
    pub inner: Option<S>,
}

/// The driver's answer when the engine reports whether it is still handshaking.
pub open spec fn spec_after_check<S, E>(inner: Option<S>, handshaking: bool) -> (Option<S>, HandshakeStep<S, E>)
    recommends
        inner is Some,
{
    if handshaking {
        (inner, HandshakeStep::RunRound)
    } else {
        (None, HandshakeStep::Complete(inner.unwrap()))
    }
}

/// The driver's answer when one engine round has finished with `r`.
pub open spec fn spec_after_round<S, E>(inner: Option<S>, r: Result<(), Fault<E>>) -> (Option<S>, HandshakeStep<S, E>) {
    match r {
        Ok(()) => (inner, HandshakeStep::CheckAgain),
        Err(Fault::WouldBlock) => (inner, HandshakeStep::Suspend),
        Err(e) => (None, HandshakeStep::Fail(e)),
    }
}

impl<S> MidHandshake<S> {
    /// A driver that owns `stream` and has not finished.
    pub fn new(stream: S) -> (d: Self)
        ensures
            d.inner == Some(stream),
    {
        MidHandshake { inner: Some(stream) }
    }

    /// Whether the stream has already been handed out or dropped.
    pub fn is_consumed(&self) -> (r: bool)
        ensures
            r == (self.inner is None),
    {
        self.inner.is_none()
    }

    /// The stream under handshake, for the caller to run the engine on.
    pub fn stream_mut(&mut self) -> (s: &mut S)
        requires
            old(self).inner is Some,
        ensures
            *s == old(self).inner.unwrap(),
            final(self).inner == Some(*final(s)),
    {
        match &mut self.inner {
            Some(s) => s,
            None => unreached(),
        }
    }

    /// Decides on the engine's answer to "still handshaking?": run another
    /// round, or take the stream out (exactly once) and complete.
    pub fn on_check<E>(&mut self, handshaking: bool) -> (step: HandshakeStep<S, E>)
        requires
            old(self).inner is Some,
        ensures
            (final(self).inner, step) == spec_after_check::<S, E>(old(self).inner, handshaking),
    {
        if handshaking {
            HandshakeStep::RunRound
        } else {
            match self.inner.take() {
                Some(s) => HandshakeStep::Complete(s),
                None => unreached(),
            }
        }
    }

    /// Decides on the result of one engine round: go on, suspend with all
    /// progress kept, or drop the stream and fail.
    pub fn on_round<E>(&mut self, r: Result<(), Fault<E>>) -> (step: HandshakeStep<S, E>)
        requires
            old(self).inner is Some,
        ensures
            (final(self).inner, step) == spec_after_round::<S, E>(old(self).inner, r),
    {
        match r {
            Ok(()) => HandshakeStep::CheckAgain,
            Err(Fault::WouldBlock) => HandshakeStep::Suspend,
            Err(e) => {
                self.inner = None;
                HandshakeStep::Fail(e)
            },
        }
    }
}

/// How a run of polls ends in the engine model of `drive`.
pub struct DriveOutcome<S> {
    /// Engine rounds that went through.
    pub rounds: nat,
    /// Polls that ended suspended before the last one.
    pub suspensions: nat,
    /// What the driver handed out, if it completed.
    pub stream: Option<S>,
}

/// Number of attempts in `ready` on which the transport is ready.
pub open spec fn count_ready(ready: Seq<bool>) -> nat
    decreases ready.len(),
{
    if ready.len() == 0 {
        0
    } else {
        (if ready[0] { 1nat } else { 0nat }) + count_ready(ready.drop_first())
    }
}

/// A transport that is ready on each of `n` attempts.
pub open spec fn always_ready(n: nat) -> Seq<bool> {
    Seq::new(n, |i: int| true)
}

/// Polls the driver, re-polling after each suspension, against an engine that
/// has completed `done` of the `needed` rounds of its handshake.  Attempt `i`
/// at a round meets a ready transport when `ready[i]` holds: the round then
/// goes through; otherwise it reports `WouldBlock` and the engine keeps the
/// progress it had.
pub open spec fn drive<S, E>(inner: Option<S>, done: nat, needed: nat, ready: Seq<bool>) -> DriveOutcome<S>
    decreases ready.len(),
{
    let (inner1, step) = spec_after_check::<S, E>(inner, done < needed);
    match step {
        HandshakeStep::Complete(s) => DriveOutcome { rounds: done, suspensions: 0, stream: Some(s) },
        HandshakeStep::RunRound => {
            if ready.len() == 0 {
                DriveOutcome { rounds: done, suspensions: 0, stream: None }
            } else {
                let r: Result<(), Fault<E>> = if ready[0] { Ok(()) } else { Err(Fault::WouldBlock) };
                let done1 = if ready[0] { done + 1 } else { done };
                let (inner2, step2) = spec_after_round::<S, E>(inner1, r);
                let rest = drive::<S, E>(inner2, done1, needed, ready.drop_first());
                match step2 {
                    HandshakeStep::CheckAgain => rest,
                    HandshakeStep::Suspend => DriveOutcome { suspensions: rest.suspensions + 1, ..rest },
                    _ => DriveOutcome { rounds: done1, suspensions: 0, stream: None },
                }
            }
        },
        _ => DriveOutcome { rounds: done, suspensions: 0, stream: None },
    }
}

/// However ready and not-ready attempts interleave, a driver polled until it
/// completes hands out its own stream after exactly the rounds that the
/// handshake needs: the same end state as an uninterrupted handshake over a
/// transport that is always ready, which never suspends.
pub proof fn lemma_interleaving_reaches_same_state<S, E>(s: S, needed: nat, ready: Seq<bool>)
    requires
        count_ready(ready) >= needed,
    ensures
        drive::<S, E>(Some(s), 0, needed, ready).rounds == needed,
        drive::<S, E>(Some(s), 0, needed, ready).stream == Some(s),
        drive::<S, E>(Some(s), 0, needed, always_ready(needed)).rounds == needed,
        drive::<S, E>(Some(s), 0, needed, always_ready(needed)).stream == Some(s),
        drive::<S, E>(Some(s), 0, needed, always_ready(needed)).suspensions == 0,
{
    lemma_drive_completes::<S, E>(s, 0, needed, ready);
    lemma_count_always_ready(needed);
    lemma_drive_completes::<S, E>(s, 0, needed, always_ready(needed));
    lemma_always_ready_never_suspends::<S, E>(s, 0, needed);
}

proof fn lemma_drive_completes<S, E>(s: S, done: nat, needed: nat, ready: Seq<bool>)
    requires
        done <= needed,
        done + count_ready(ready) >= needed,
    ensures
        drive::<S, E>(Some(s), done, needed, ready).rounds == needed,
        drive::<S, E>(Some(s), done, needed, ready).stream == Some(s),
    decreases ready.len(),
{
    if done < needed {
        lemma_drive_completes::<S, E>(s, if ready[0] { done + 1 } else { done }, needed, ready.drop_first());
    }
}

proof fn lemma_count_always_ready(n: nat)
    ensures
        count_ready(always_ready(n)) == n,
    decreases n,
{
    if n > 0 {
        assert(always_ready(n).drop_first() =~= always_ready((n - 1) as nat));
        lemma_count_always_ready((n - 1) as nat);
    }
}

proof fn lemma_always_ready_never_suspends<S, E>(s: S, done: nat, needed: nat)
    requires
        done <= needed,
    ensures
        drive::<S, E>(Some(s), done, needed, always_ready((needed - done) as nat)).suspensions == 0,
    decreases needed - done,
{
    if done < needed {
        let n = (needed - done) as nat;
        assert(always_ready(n).drop_first() =~= always_ready((needed - (done + 1)) as nat));
        lemma_always_ready_never_suspends::<S, E>(s, done + 1, needed);
    }
}

} // verus!
