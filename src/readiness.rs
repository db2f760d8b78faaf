//! The two vocabularies of progress: the runtime's readiness (`Ready` / `Pending`)
//! and the engine's blocking results, where "not ready" travels as the
//! `WouldBlock` sentinel.  Both directions use the same sentinel, so suspension
//! survives a trip through the engine.
use vstd::prelude::*;

verus! {

/// Whether a non-blocking operation finished, and with what.
#[derive(PartialEq, Eq, Debug)]
pub enum Readiness<T> {
    /// The operation completed with this value.
    Ready(T),
    /// The operation cannot proceed yet; the caller has been registered for a wake-up.
    Pending,
}

/// A failed I/O operation, classified by what the bridge needs to tell apart.
#[derive(PartialEq, Eq, Debug)]
pub enum Fault<E> {
    /// The "temporarily unavailable" sentinel: retry after a wake-up.
    WouldBlock,
    /// The peer closed the connection without a close-notify record.
    ConnectionAborted,
    /// Any other failure, carried through unchanged.
    Other(E),
}

/// A non-blocking result seen through a blocking interface.
pub open spec fn spec_to_blocking<T, E>(r: Result<Readiness<T>, Fault<E>>) -> Result<T, Fault<E>> {
    match r {
        Ok(Readiness::Ready(v)) => Ok(v),
        Ok(Readiness::Pending) => Err(Fault::WouldBlock),
        Err(e) => Err(e),
    }
}

/// A blocking-style result seen as readiness.
pub open spec fn spec_from_blocking<T, E>(r: Result<T, Fault<E>>) -> Result<Readiness<T>, Fault<E>> {
    match r {
        Ok(v) => Ok(Readiness::Ready(v)),
        Err(Fault::WouldBlock) => Ok(Readiness::Pending),
        Err(e) => Err(e),
    }
}

/// What a plaintext read reports: an aborted connection is a clean end of stream.
pub open spec fn spec_read_outcome<E>(r: Result<usize, Fault<E>>) -> Result<Readiness<usize>, Fault<E>> {
    match r {
        Ok(n) => Ok(Readiness::Ready(n)),
        Err(Fault::ConnectionAborted) => Ok(Readiness::Ready(0)),
        Err(Fault::WouldBlock) => Ok(Readiness::Pending),
        Err(e) => Err(e),
    }
}

/// Turns a transport's readiness result into what a blocking reader or writer
/// expects: a value, the `WouldBlock` sentinel for `Pending`, or the failure as is.
pub fn to_blocking<T, E>(r: Result<Readiness<T>, Fault<E>>) -> (b: Result<T, Fault<E>>)
    ensures
        b == spec_to_blocking(r),
{
    match r {
        Ok(Readiness::Ready(v)) => Ok(v),
        Ok(Readiness::Pending) => Err(Fault::WouldBlock),
        Err(e) => Err(e),
    }
}

/// Turns a blocking-style result back into readiness: the `WouldBlock` sentinel
/// becomes `Pending`, any other failure is kept.
pub fn from_blocking<T, E>(r: Result<T, Fault<E>>) -> (p: Result<Readiness<T>, Fault<E>>)
    ensures
        p == spec_from_blocking(r),
{
    match r {
        Ok(v) => Ok(Readiness::Ready(v)),
        Err(Fault::WouldBlock) => Ok(Readiness::Pending),
        Err(e) => Err(e),
    }
}

/// Interprets the result of a plaintext read through the engine.  A peer that
/// closes without a close-notify record is tolerated and reads as end of
/// stream; this leniency can hide a truncation by a hostile peer.
pub fn read_outcome<E>(r: Result<usize, Fault<E>>) -> (p: Result<Readiness<usize>, Fault<E>>)
    ensures
        p == spec_read_outcome(r),
        r matches Err(Fault::ConnectionAborted) ==> p == Ok::<Readiness<usize>, Fault<E>>(Readiness::Ready(0)),
{
    match r {
        Ok(n) => Ok(Readiness::Ready(n)),
        Err(Fault::ConnectionAborted) => Ok(Readiness::Ready(0)),
        Err(Fault::WouldBlock) => Ok(Readiness::Pending),
        Err(e) => Err(e),
    }
}

/// A blocking-style result survives being turned into readiness and back.
pub proof fn lemma_blocking_round_trip<T, E>(r: Result<T, Fault<E>>)
    ensures
        spec_to_blocking(spec_from_blocking(r)) == r,
{
}

/// A readiness result survives a trip through the blocking interface; a
/// `WouldBlock` failure comes back as the suspension it stands for.
pub proof fn lemma_readiness_round_trip<T, E>(r: Result<Readiness<T>, Fault<E>>)
    ensures
        r != Err::<Readiness<T>, Fault<E>>(Fault::WouldBlock) ==> spec_from_blocking(spec_to_blocking(r)) == r,
        r == Err::<Readiness<T>, Fault<E>>(Fault::WouldBlock) ==> spec_from_blocking(spec_to_blocking(r)) == Ok::<Readiness<T>, Fault<E>>(Readiness::Pending),
{
}

/// A read that meets an aborted connection reports zero bytes and never fails.
pub proof fn lemma_aborted_read_is_end_of_stream<E>()
    ensures
        spec_read_outcome(Err::<usize, Fault<E>>(Fault::ConnectionAborted)) == Ok::<Readiness<usize>, Fault<E>>(Readiness::Ready(0)),
{
}

} // verus!
