//! The connector variant for TCP streams.
//!
//! For the incoming TCP stream both "close" (FIN) and "abort" (RST)
//! are detected and recorded on the incoming side.  For the outgoing
//! stream, a graceful end of data is mapped to a shutdown of the write
//! half only, so the incoming half stays open until the peer closes.
//! An abrupt end of data is mapped to a shutdown of both halves, with
//! the abort also recorded on the incoming side: the pairing winds
//! down quickly locally, though the peer sees an ordinary close.
//!
//! The TCP refinement over the shared core is the no-delay (Nagle
//! algorithm) toggle: a requested change is latched and applied on the
//! next outbound invocation, so the option system call happens inside
//! the normal drive loop.

use vstd::prelude::*;

use crate::drive::OutPrep;
use crate::duplex::Incoming;
use crate::drive::InPlan;
use crate::link::LinkCore;

verus! {

/// Exchange stream data via a TCP stream.
///
/// To start with, both reading and writing are paused, because
/// depending on the platform either may fail before a "ready"
/// indication has been received.  Call `set_pause_writes(false)` or
/// `set_pause_reads(false)` as soon as the stream indicates "ready",
/// to let data flow.
///
/// A connector instance is permanently associated with one stream and
/// one buffer pairing; behaviour is unpredictable otherwise.
pub struct TcpLink {
    /// The configuration shared by every connector variant.
    pub core: LinkCore,
    /// The desired no-delay flag (`true` disables the Nagle
    /// algorithm).
    pub nodelay: bool,
    /// Whether a no-delay change awaits the next outbound invocation.
    pub pending_set_nodelay: bool,
}

impl TcpLink {
    /// Default settings: the default chunk bound, no-delay off (the
    /// Nagle algorithm batches output), both directions paused.
    pub fn new() -> (r: Self)
        ensures
            r == (TcpLink {
                core: (LinkCore {
                    max_read_unit: crate::link::DEFAULT_MAX_READ_UNIT,
                    pause_writes: true,
                    pause_reads: true,
                }),
                nodelay: false,
                pending_set_nodelay: false,
            }),
    {
        TcpLink { core: LinkCore::new(), nodelay: false, pending_set_nodelay: false }
    }

    /// Change the maximum number of bytes read per inbound
    /// invocation.  Bounds memory growth and provides backpressure;
    /// takes effect on the next invocation.
    pub fn set_max_read_unit(&mut self, max_read_unit: usize)
        ensures
            *final(self) == (TcpLink {
                core: (LinkCore { max_read_unit, ..old(self).core }),
                ..*old(self)
            }),
    {
        self.core.set_max_read_unit(max_read_unit);
    }

    /// Change the no-delay flag.  A real change is latched and
    /// applied on the next outbound invocation; requesting the value
    /// already in force changes nothing.
    pub fn set_nodelay(&mut self, nodelay: bool)
        ensures
            old(self).nodelay != nodelay ==> *final(self) == (TcpLink {
                nodelay,
                pending_set_nodelay: true,
                ..*old(self)
            }),
            old(self).nodelay == nodelay ==> *final(self) == *old(self),
    {
        if self.nodelay != nodelay {
            self.nodelay = nodelay;
            self.pending_set_nodelay = true;
        }
    }

    /// Pause or unpause writes; takes effect on the next invocation.
    pub fn set_pause_writes(&mut self, pause: bool)
        ensures
            *final(self) == (TcpLink {
                core: (LinkCore { pause_writes: pause, ..old(self).core }),
                ..*old(self)
            }),
    {
        self.core.set_pause_writes(pause);
    }

    /// Pause or unpause reads; takes effect on the next invocation.
    pub fn set_pause_reads(&mut self, pause: bool)
        ensures
            *final(self) == (TcpLink {
                core: (LinkCore { pause_reads: pause, ..old(self).core }),
                ..*old(self)
            }),
    {
        self.core.set_pause_reads(pause);
    }

    /// Begin an outbound invocation.  While writes are paused this is
    /// a pure no-op: nothing is mutated, no I/O is requested.
    /// Otherwise the drain is requested, preceded by the latched
    /// no-delay change if one is pending; the latch is cleared now,
    /// so the option change is attempted exactly once.
    pub fn out_prepare(&mut self) -> (p: OutPrep)
        ensures
            old(self).core.pause_writes ==> (p == OutPrep::Paused && *final(self) == *old(self)),
            !old(self).core.pause_writes ==> (*final(self) == (TcpLink {
                pending_set_nodelay: false,
                ..*old(self)
            }) && p == (OutPrep::Drive {
                set_nodelay: if old(self).pending_set_nodelay {
                    Some(old(self).nodelay)
                } else {
                    None
                },
            })),
    {
        if self.core.pause_writes {
            OutPrep::Paused
        } else if self.pending_set_nodelay {
            self.pending_set_nodelay = false;
            OutPrep::Drive { set_nodelay: Some(self.nodelay) }
        } else {
            OutPrep::Drive { set_nodelay: None }
        }
    }

    /// The inbound gate: see [`LinkCore::in_plan`].
    pub fn in_plan(&self, inc: &Incoming) -> (p: InPlan)
        ensures
            (self.core.pause_reads || inc.state != crate::duplex::EndState::Open
                || self.core.max_read_unit == 0) ==> p == InPlan::Skip,
            !(self.core.pause_reads || inc.state != crate::duplex::EndState::Open
                || self.core.max_read_unit == 0) ==> p == (InPlan::Read {
                max: self.core.max_read_unit,
            }),
    {
        self.core.in_plan(inc)
    }
}

impl Default for TcpLink {
    /// The same settings as [`TcpLink::new`].
    fn default() -> (r: Self)
        ensures
            r == (TcpLink {
                core: (LinkCore {
                    max_read_unit: crate::link::DEFAULT_MAX_READ_UNIT,
                    pause_writes: true,
                    pause_reads: true,
                }),
                nodelay: false,
                pending_set_nodelay: false,
            }),
    {
        TcpLink::new()
    }
}

} // verus!
