//! Laws relating the connector's transitions across invocations.
//!
//! Each proof function below states, over the same spec functions the
//! executable contracts use, a property that spans more than one call
//! of the connector.

use vstd::prelude::*;

use crate::drive::ShutdownHow;
use crate::drive::spec_close_how;
use crate::drive::spec_abort_propagated;
use crate::drive::spec_wants_close;
use crate::duplex::EndState;
use crate::duplex::Incoming;
use crate::duplex::Outgoing;
use crate::duplex::spec_consumed;

verus! {

/// Once queued data has drained with a graceful end of data pending,
/// the close trigger fires and calls for a half-close of the write
/// half only; and once that close has been acknowledged, the trigger
/// never fires again — acknowledging is idempotent, so the shutdown
/// sequence runs exactly once.
pub proof fn lemma_graceful_close_exactly_once(o: Outgoing)
    requires
        o.data@.len() == 0,
        o.state == EndState::Closing,
    ensures
        spec_wants_close(o),
        spec_close_how(o) == ShutdownHow::WriteHalf,
        !spec_wants_close(Outgoing { state: spec_consumed(o.state), ..o }),
        spec_consumed(spec_consumed(o.state)) == spec_consumed(o.state),
{
}

/// Once queued data has drained with an abrupt end of data pending,
/// the close trigger fires and calls for a shutdown of both
/// directions; the abort is propagated to the incoming side exactly
/// when that side has not already recorded a termination; and once
/// the close has been acknowledged, the trigger never fires again.
pub proof fn lemma_abort_close(o: Outgoing, i: Incoming)
    requires
        o.data@.len() == 0,
        o.state == EndState::Aborting,
    ensures
        spec_wants_close(o),
        spec_close_how(o) == ShutdownHow::Both,
        i.state == EndState::Open ==> spec_abort_propagated(i) == (Incoming {
            state: EndState::Aborting,
            ..i
        }),
        i.state != EndState::Open ==> spec_abort_propagated(i) == i,
        spec_abort_propagated(i).state != EndState::Open,
        !spec_wants_close(Outgoing { state: spec_consumed(o.state), ..o }),
{
}

/// During a graceful drain the close trigger fires exactly when the
/// last queued byte has been transmitted: across any number of
/// invocations, each consuming some prefix of the remaining queue and
/// leaving the pending end of data in place, no close is requested
/// while data remains, and one is requested as soon as none does.
pub proof fn lemma_graceful_drain_step(before: Outgoing, after: Outgoing, accepted: int)
    requires
        before.state == EndState::Closing,
        0 <= accepted <= before.data@.len(),
        after.state == before.state,
        after.data@ == before.data@.skip(accepted),
    ensures
        spec_wants_close(after) <==> accepted == before.data@.len(),
{
}

/// Propagating an abort to the incoming side is monotonic and
/// idempotent: it never reopens the side, and propagating twice is
/// the same as propagating once.
pub proof fn lemma_abort_propagation_idempotent(i: Incoming)
    ensures
        spec_abort_propagated(spec_abort_propagated(i)) == spec_abort_propagated(i),
        i.state != EndState::Open ==> spec_abort_propagated(i) == i,
{
}

/// Idempotence of the drive loop at rest: with no queued data and no
/// end of data announced, the close trigger does not fire, so an
/// outbound invocation whose drain moved nothing leaves every part of
/// the pairing as it was.
pub proof fn lemma_quiescent_no_close(o: Outgoing)
    requires
        o.state == EndState::Open,
    ensures
        !spec_wants_close(o),
{
}

} // verus!
