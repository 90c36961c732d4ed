//! The connector variant for Unix-domain streams.
//!
//! For the incoming stream both "close" and "abort" are detected and
//! recorded on the incoming side.  For the outgoing stream, a graceful
//! end of data is mapped to a shutdown of the write half only, so the
//! incoming half stays open until the peer closes.  An abrupt end of
//! data is mapped to a shutdown of both halves, with the abort also
//! recorded on the incoming side, so the pairing winds down quickly
//! locally.
//!
//! This variant is the shared core without any transport-specific
//! option: its outbound gate never requests an option change.

use vstd::prelude::*;

use crate::drive::InPlan;
use crate::drive::OutPrep;
use crate::duplex::Incoming;
use crate::link::LinkCore;

verus! {

/// Exchange stream data via a Unix-domain stream.
///
/// To start with, both reading and writing are paused.  Call
/// `set_pause_writes(false)` or `set_pause_reads(false)` as soon as
/// the stream indicates "ready", to let data flow.
///
/// A connector instance is permanently associated with one stream and
/// one buffer pairing; behaviour is unpredictable otherwise.
pub struct UnixStreamLink {
    /// The configuration shared by every connector variant.
    pub core: LinkCore,
}

impl UnixStreamLink {
    /// Default settings: the default chunk bound, both directions
    /// paused.
    pub fn new() -> (r: Self)
        ensures
            r == (UnixStreamLink {
                core: (LinkCore {
                    max_read_unit: crate::link::DEFAULT_MAX_READ_UNIT,
                    pause_writes: true,
                    pause_reads: true,
                }),
            }),
    {
        UnixStreamLink { core: LinkCore::new() }
    }

    /// Change the maximum number of bytes read per inbound
    /// invocation.  Bounds memory growth and provides backpressure;
    /// takes effect on the next invocation.
    pub fn set_max_read_unit(&mut self, max_read_unit: usize)
        ensures
            *final(self) == (UnixStreamLink {
                core: (LinkCore { max_read_unit, ..old(self).core }),
            }),
    {
        self.core.set_max_read_unit(max_read_unit);
    }

    /// Pause or unpause writes; takes effect on the next invocation.
    pub fn set_pause_writes(&mut self, pause: bool)
        ensures
            *final(self) == (UnixStreamLink {
                core: (LinkCore { pause_writes: pause, ..old(self).core }),
            }),
    {
        self.core.set_pause_writes(pause);
    }

    /// Pause or unpause reads; takes effect on the next invocation.
    pub fn set_pause_reads(&mut self, pause: bool)
        ensures
            *final(self) == (UnixStreamLink {
                core: (LinkCore { pause_reads: pause, ..old(self).core }),
            }),
    {
        self.core.set_pause_reads(pause);
    }

    /// Begin an outbound invocation.  While writes are paused this is
    /// a pure no-op: nothing is mutated, no I/O is requested.  This
    /// variant has no transport option, so a drive never carries an
    /// option change.
    pub fn out_prepare(&self) -> (p: OutPrep)
        ensures
            self.core.pause_writes ==> p == OutPrep::Paused,
            !self.core.pause_writes ==> p == (OutPrep::Drive { set_nodelay: None }),
    {
        if self.core.pause_writes {
            OutPrep::Paused
        } else {
            OutPrep::Drive { set_nodelay: None }
        }
    }

    /// The inbound gate: see [`LinkCore::in_plan`].
    pub fn in_plan(&self, inc: &Incoming) -> (p: InPlan)
        ensures
            (self.core.pause_reads || inc.state != crate::duplex::EndState::Open
                || self.core.max_read_unit == 0) ==> p == InPlan::Skip,
            !(self.core.pause_reads || inc.state != crate::duplex::EndState::Open
                || self.core.max_read_unit == 0) ==> p == (InPlan::Read {
                max: self.core.max_read_unit,
            }),
    {
        self.core.in_plan(inc)
    }
}

impl Default for UnixStreamLink {
    /// The same settings as [`UnixStreamLink::new`].
    fn default() -> (r: Self)
        ensures
            r == (UnixStreamLink {
                core: (LinkCore {
                    max_read_unit: crate::link::DEFAULT_MAX_READ_UNIT,
                    pause_writes: true,
                    pause_reads: true,
                }),
            }),
    {
        UnixStreamLink::new()
    }
}

} // verus!
