//! The connector's decision core: error classification, the
//! close/abort state machine, and the per-direction transfer logic.
//!
//! The functions here are pure state transitions.  The unverified
//! driver that owns the socket reports each I/O outcome as a value of
//! one of the event types below; the functions decide what the outcome
//! means, mutate the buffer pairing accordingly, and tell the driver
//! what to do next.  The driver itself decides nothing.

use vstd::prelude::*;

use crate::duplex::EndState;
use crate::duplex::Incoming;
use crate::duplex::Outgoing;
use crate::duplex::spec_consumed;

verus! {

/// The class of a transport failure, as `std::io::ErrorKind` reports
/// it.  The driver maps each kind it meets onto the matching variant;
/// every kind without a variant of its own is `Other`.
#[derive(Clone, Copy, Debug, PartialEq, Eq, Structural)]
pub enum IoKind {
    /// The operation would have blocked; retry on a later readiness
    /// notification.
    WouldBlock,
    /// The operation was interrupted by a signal; retry immediately.
    Interrupted,
    /// The peer reset the connection.
    ConnectionReset,
    /// The peer aborted the connection.
    ConnectionAborted,
    /// Any other failure.
    Other,
}

/// Carries a transport failure: its classified kind beside the
/// untouched error value, so that a fatal failure can be surfaced
/// verbatim.
pub struct Failure {
    /// The classification of `error`'s kind.
    pub kind: IoKind,
    /// The failure exactly as the transport reported it.
    pub error: std::io::Error,
}

/// Relies on `std::io::Error` from the standard library: an opaque
/// value carried through the connector and surfaced verbatim on a
/// fatal failure.  Nothing is assumed about it.
#[verifier::external_type_specification]
#[verifier::external_body]
pub struct ExIoError(std::io::Error);

/// Which directions of the transport a close affects.
#[derive(Clone, Copy, Debug, PartialEq, Eq, Structural)]
pub enum ShutdownHow {
    /// Half-close: only the write half; the peer may still send.
    WriteHalf,
    /// Full close of both halves.
    Both,
}

/// What the driver must do before attempting the outbound transfer.
pub enum OutPrep {
    /// Writes are paused: the invocation is over, with no progress
    /// and no I/O.
    Paused,
    /// Drain the queue to the transport, after first applying the
    /// given transport-option change if one is pending.
    Drive {
        /// A deferred no-delay change to apply now, if any.
        set_nodelay: Option<bool>,
    },
}

/// What the driver must do for the inbound transfer.
pub enum InPlan {
    /// No read: reads are paused, a peer termination is already
    /// recorded, or the configured chunk size is zero.  The
    /// invocation is over, with no progress and no I/O.
    Skip,
    /// Read up to `max` bytes from the transport.
    Read {
        /// The configured chunk bound for this invocation.
        max: usize,
    },
}

/// How the write-drain attempt ended.  The driver retries interrupted
/// writes on the spot (see [`retry_wanted`]), so an interruption never
/// appears here as the final outcome.
pub enum WriteOutcome {
    /// The drain stopped without a failure: the queue was emptied, or
    /// the transport accepted nothing further.
    Wrote,
    /// A write failed.
    Failed(Failure),
}

/// How a shutdown or transport-option call ended.
pub enum SysOutcome {
    /// The call succeeded.
    Done,
    /// The call failed.
    Failed(Failure),
}

/// What the outbound transfer requires after the write drain.
pub enum AfterWrite {
    /// A fatal failure, to be returned to the caller verbatim.
    Fatal(std::io::Error),
    /// The close trigger fired: shut the transport down as directed,
    /// then report the outcome to [`out_shutdown_result`].
    Shutdown(ShutdownHow),
    /// Nothing further this invocation.
    NoClose,
}

/// How a read attempt ended.  `bytes` holds whatever was received
/// before the end condition: a read may deliver data and then fail,
/// and the data delivered stays.
pub struct ReadEvent {
    /// The bytes received, oldest first; at most the requested chunk
    /// bound.
    pub bytes: Vec<u8>,
    /// What ended the read.
    pub end: ReadEnd,
}

/// What ended a read attempt.  As with writes, the driver retries
/// interrupted reads on the spot.
pub enum ReadEnd {
    /// The chunk bound was reached; the stream remains open.
    Open,
    /// The peer closed gracefully (a read of zero bytes).
    Eof,
    /// A read failed.
    Failed(Failure),
}

/// Whether a failed call should be retried immediately: only a signal
/// interruption is, and it is never surfaced.
pub open spec fn spec_retry_wanted(k: IoKind) -> bool {
    k == IoKind::Interrupted
}

/// The retry policy for the driver's immediate-retry loop around a
/// single transport call.
pub fn retry_wanted(k: IoKind) -> (r: bool)
    ensures
        r == spec_retry_wanted(k),
{
    k == IoKind::Interrupted
}

/// Whether a write failure is fatal.  Only "would block" is absorbed:
/// it means the transport's send buffer is currently full.
pub open spec fn spec_write_fatal(k: IoKind) -> bool {
    k != IoKind::WouldBlock
}

/// Whether a read failure records an abrupt peer termination rather
/// than an error of the link itself.
pub open spec fn spec_read_peer_abort(k: IoKind) -> bool {
    k == IoKind::ConnectionReset || k == IoKind::ConnectionAborted
}

/// Whether a read failure is fatal: neither absorbed as "no bytes this
/// round" nor recorded as a peer termination.
pub open spec fn spec_read_fatal(k: IoKind) -> bool {
    !spec_read_peer_abort(k) && k != IoKind::WouldBlock
}

/// Whether the close trigger fires: every queued byte has been
/// transmitted and an end of data is pending.  Bytes are always
/// flushed before the close is acted on, so a close requested while
/// data is still queued never truncates output.
pub open spec fn spec_wants_close(o: Outgoing) -> bool {
    o.data@.len() == 0 && (o.state == EndState::Closing || o.state == EndState::Aborting)
}

/// Which close the trigger calls for: a full shutdown for an abrupt
/// end, a half-close for a graceful one.
pub open spec fn spec_close_how(o: Outgoing) -> ShutdownHow {
    if o.state == EndState::Aborting {
        ShutdownHow::Both
    } else {
        ShutdownHow::WriteHalf
    }
}

/// The incoming side after the outgoing abort has been propagated to
/// it: marked aborted unless a termination was already recorded.
pub open spec fn spec_abort_propagated(i: Incoming) -> Incoming {
    if i.state == EndState::Open {
        Incoming { state: EndState::Aborting, ..i }
    } else {
        i
    }
}

/// Complete the outbound transfer after the write drain.
///
/// A failed drain is classified: "would block" is absorbed, anything
/// else is fatal and nothing further is touched.  After a clean drain,
/// if the queue is empty and an end of data is pending, the close
/// trigger fires: an abrupt end is propagated to the incoming side
/// (unless that side already recorded a termination) and a full
/// shutdown is requested; a graceful end requests a half-close, and
/// the incoming side is left alone.
pub fn out_after_write(out: &Outgoing, inc: &mut Incoming, outcome: WriteOutcome) -> (r:
    AfterWrite)
    ensures
        outcome matches WriteOutcome::Failed(f) ==> ((!spec_write_fatal(f.kind)) ==> (r
            == AfterWrite::NoClose && *final(inc) == *old(inc))) && (spec_write_fatal(f.kind) ==> (r
            == AfterWrite::Fatal(f.error) && *final(inc) == *old(inc))),
        (outcome matches WriteOutcome::Wrote && !spec_wants_close(*out)) ==> (r
            == AfterWrite::NoClose && *final(inc) == *old(inc)),
        (outcome matches WriteOutcome::Wrote && spec_wants_close(*out)) ==> (r
            == AfterWrite::Shutdown(spec_close_how(*out)) && *final(inc) == (if out.state
            == EndState::Aborting {
            spec_abort_propagated(*old(inc))
        } else {
            *old(inc)
        })),
{
    match outcome {
        WriteOutcome::Failed(f) => {
            if f.kind == IoKind::WouldBlock {
                AfterWrite::NoClose
            } else {
                AfterWrite::Fatal(f.error)
            }
        },
        WriteOutcome::Wrote => {
            if out.is_empty() && out.has_pending_eof() {
                if out.is_aborted() {
                    inc.abort();
                    AfterWrite::Shutdown(ShutdownHow::Both)
                } else {
                    AfterWrite::Shutdown(ShutdownHow::WriteHalf)
                }
            } else {
                AfterWrite::NoClose
            }
        },
    }
}

/// Record the outcome of the shutdown the close trigger requested.
///
/// On success the pending end of data is acknowledged, so the shutdown
/// sequence is never repeated.  "Would block" means the shutdown is
/// not yet done: nothing is acknowledged, and a later invocation will
/// retry.  Any other failure is fatal and is returned with nothing
/// further touched.
pub fn out_shutdown_result(out: &mut Outgoing, outcome: SysOutcome) -> (r: Option<
    std::io::Error,
>)
    ensures
        (outcome matches SysOutcome::Done) ==> (r is None && final(out).data@ == old(out).data@
            && final(out).state == spec_consumed(old(out).state)),
        outcome matches SysOutcome::Failed(f) ==> ((!spec_write_fatal(f.kind)) ==> (r is None
            && *final(out) == *old(out))) && (spec_write_fatal(f.kind) ==> (r == Some(f.error)
            && *final(out) == *old(out))),
{
    match outcome {
        SysOutcome::Done => {
            let _ = out.consume_eof();
            None
        },
        SysOutcome::Failed(f) => {
            if f.kind == IoKind::WouldBlock {
                None
            } else {
                Some(f.error)
            }
        },
    }
}

/// Complete the inbound transfer after the read attempt.
///
/// Whatever bytes the read delivered are appended first — at most
/// `max`, the chunk bound the read was given — and remain appended
/// whatever follows.  Then the end condition is classified: a graceful
/// peer close records end of data; a peer reset or abort records an
/// abrupt termination and is absorbed, not surfaced; "would block"
/// means no bytes were available this round; anything else is fatal
/// and is returned verbatim with nothing further touched.  The `Ok`
/// result reports whether anything observable changed.
pub fn in_finish(inc: &mut Incoming, ev: ReadEvent, max: usize) -> (r: Result<
    bool,
    std::io::Error,
>)
    requires
        old(inc).state == EndState::Open,
        ev.bytes@.len() <= max,
    ensures
        final(inc).data@ == old(inc).data@ + ev.bytes@,
        final(inc).data@.len() <= old(inc).data@.len() + max,
        (ev.end matches ReadEnd::Open) ==> (final(inc).state == EndState::Open && r == Ok::<
            bool,
            std::io::Error,
        >(ev.bytes@.len() > 0)),
        (ev.end matches ReadEnd::Eof) ==> (final(inc).state == EndState::Closing && r == Ok::<
            bool,
            std::io::Error,
        >(true)),
        ev.end matches ReadEnd::Failed(f) ==> (spec_read_peer_abort(f.kind) ==> (final(inc).state
            == EndState::Aborting && r == Ok::<bool, std::io::Error>(true))) && (f.kind
            == IoKind::WouldBlock ==> (final(inc).state == EndState::Open && r == Ok::<
            bool,
            std::io::Error,
        >(ev.bytes@.len() > 0))) && (spec_read_fatal(f.kind) ==> (final(inc).state
            == EndState::Open && r == Err::<bool, std::io::Error>(f.error))),
{
    let ReadEvent { bytes, end } = ev;
    let got_bytes = bytes.len() > 0;
    inc.push_bytes(bytes.as_slice());
    match end {
        ReadEnd::Open => Ok(got_bytes),
        ReadEnd::Eof => {
            inc.close();
            Ok(true)
        },
        ReadEnd::Failed(f) => {
            if f.kind == IoKind::ConnectionReset || f.kind == IoKind::ConnectionAborted {
                inc.abort();
                Ok(true)
            } else if f.kind == IoKind::WouldBlock {
                Ok(got_bytes)
            } else {
                Err(f.error)
            }
        },
    }
}

} // verus!
