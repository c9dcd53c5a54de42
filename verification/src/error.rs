//! Error taxonomy.
//!
//! Local validation errors ([`PolicyError`]) are raised before any remote
//! call and never reach the bus. Remote failures ([`BusErrorKind`]) are
//! surfaced to the caller verbatim with their kind; whether an operation may
//! be retried, must be reconciled first, or has to fail is decided by
//! [`next_step`].

use vstd::prelude::*;

verus! {

/// A policy value the init system would reject, caught locally before any
/// remote call is issued.
#[derive(Clone, Copy, PartialEq, Eq, Structural, Debug)]
pub enum PolicyError {
    /// A CPU weight outside the accepted band of 1 to 10000.
    CpuWeightOutOfRange,
    /// An IO weight outside the accepted band of 1 to 10000.
    IoWeightOutOfRange,
    /// A per-device IO weight outside the accepted band of 1 to 10000.
    IoDeviceWeightOutOfRange,
    /// A task limit of zero, which the protocol reserves for "none".
    TaskMaxZero,
}

/// The kind of a failed remote operation, as surfaced to callers.
#[derive(Clone, Copy, PartialEq, Eq, Structural, Debug)]
pub enum BusErrorKind {
    /// The bus is unreachable or the connection dropped.
    Connection,
    /// The unit name is unknown to the init system.
    NoSuchUnit,
    /// The init system refused a property value.
    PropertyRejected,
    /// The caller lacks authorization for the requested mutation.
    PermissionDenied,
    /// The round trip exceeded its bound; the outcome is unknown.
    Timeout,
    /// The reply could not be decoded.
    MalformedReply,
}

/// What a caller should do with a failed remote operation.
#[derive(Clone, Copy, PartialEq, Eq, Structural, Debug)]
pub enum RetryStep {
    /// Retry the whole operation after backoff.
    Retry,
    /// The outcome is unknown: re-read the live state before any retry.
    Reconcile,
    /// Not retryable without caller action.
    Fail,
}

/// Decide how an application attempt proceeds after a remote failure: a
/// dropped connection is retried after backoff; a timeout leaves the outcome
/// unknown and must be reconciled by a fresh query; every other kind is a
/// definite rejection that retrying cannot mend.
pub fn next_step(kind: BusErrorKind) -> (r: RetryStep)
    ensures
        r == RetryStep::Retry <==> kind == BusErrorKind::Connection,
        r == RetryStep::Reconcile <==> kind == BusErrorKind::Timeout,
        r == RetryStep::Fail <==> (kind == BusErrorKind::NoSuchUnit || kind
            == BusErrorKind::PropertyRejected || kind == BusErrorKind::PermissionDenied || kind
            == BusErrorKind::MalformedReply),
{
    match kind {
        BusErrorKind::Connection => RetryStep::Retry,
        BusErrorKind::Timeout => RetryStep::Reconcile,
        BusErrorKind::NoSuchUnit => RetryStep::Fail,
        BusErrorKind::PropertyRejected => RetryStep::Fail,
        BusErrorKind::PermissionDenied => RetryStep::Fail,
        BusErrorKind::MalformedReply => RetryStep::Fail,
    }
}

} // verus!
