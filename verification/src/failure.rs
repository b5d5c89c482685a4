use vstd::prelude::*;
use crate::dns::ResponseCode;

verus! {

/// The kind of a transport or protocol failure of one DNS exchange. This is
/// the core's own taxonomy; the surrounding program maps whatever its DNS
/// library reports into these kinds.
#[derive(Clone, Copy, PartialEq, Eq, Structural, Debug)]
pub enum FailureKind {
    /// The exchange timed out.
    Timeout,
    /// A transport I/O error.
    Io,
    /// The transport reported itself busy.
    Busy,
    /// The request could not be sent.
    SendFailure,
    /// The response could not be understood.
    MalformedResponse,
    /// The peer refused the operation.
    RefusedOperation,
    /// Any other application-level error.
    Other,
}

/// Whether a failure is worth retrying.
#[derive(Clone, Copy, PartialEq, Eq, Structural, Debug)]
pub enum Classification {
    Retryable,
    Fatal,
}

/// The retry policy: only kinds that reflect transient network or server-load
/// conditions are retryable; everything else is fatal, so that configuration
/// and protocol bugs are never masked by retries.
pub open spec fn classify_spec(kind: FailureKind) -> Classification {
    match kind {
        FailureKind::Timeout => Classification::Retryable,
        FailureKind::Io => Classification::Retryable,
        FailureKind::Busy => Classification::Retryable,
        FailureKind::SendFailure => Classification::Retryable,
        _ => Classification::Fatal,
    }
}

/// Maps a failure into retryable or fatal, by the allow-list policy of
/// `classify_spec`.
pub fn classify(kind: FailureKind) -> (r: Classification)
    ensures
        r == classify_spec(kind),
{
    match kind {
        FailureKind::Timeout => Classification::Retryable,
        FailureKind::Io => Classification::Retryable,
        FailureKind::Busy => Classification::Retryable,
        FailureKind::SendFailure => Classification::Retryable,
        _ => Classification::Fatal,
    }
}

/// The stage of the pipeline at which an error arose.
#[derive(Clone, Copy, PartialEq, Eq, Structural, Debug)]
pub enum Stage {
    Resolution,
    ZoneLocation,
    Update,
}

/// A fatal error of the pipeline. Every variant aborts the run; none is
/// retried.
#[derive(Clone, Copy, PartialEq, Eq, Structural, Debug)]
pub enum PipelineError {
    /// The answer section of the challenge query was empty.
    NoRecordInResponse,
    /// The last answer of the challenge query was neither CNAME nor TXT.
    UnexpectedRecordType,
    /// The zone query carried no authority record.
    NoZoneFound,
    /// The zone query came back with a response code other than NoError or
    /// NXDomain.
    UnhandledResponseType(ResponseCode),
    /// The located zone has no credential in the configuration.
    ZoneNotConfigured,
    /// A DNS exchange failed terminally: a fatal failure, or retries
    /// exhausted, at the given stage.
    QueryFailed(Stage, FailureKind),
}

} // verus!
