//! Configuration shared by every connector variant: the read-chunk
//! bound and the two pause latches, with the gating decisions they
//! drive.  The transport variants differ only in one optional
//! capability (the TCP no-delay toggle), so they share this core.

use vstd::prelude::*;

use crate::drive::InPlan;
use crate::duplex::EndState;
use crate::duplex::Incoming;

verus! {

/// The default chunk bound: bigger than a typical IP packet's data
/// load.
pub const DEFAULT_MAX_READ_UNIT: usize = 2048;

/// Per-connector configuration common to every transport kind.
///
/// Both directions start paused: depending on the platform, I/O before
/// the transport's first "ready" indication may fail, so each
/// direction is unpaused only once that indication arrives.
pub struct LinkCore {
    /// Maximum bytes pulled from the transport per inbound invocation.
    pub max_read_unit: usize,
    /// While set, the outbound transfer is a no-op.
    pub pause_writes: bool,
    /// While set, the inbound transfer is a no-op.
    pub pause_reads: bool,
}

impl LinkCore {
    /// Default settings: the default chunk bound, both directions
    /// paused.
    pub fn new() -> (r: Self)
        ensures
            r == (LinkCore {
                max_read_unit: DEFAULT_MAX_READ_UNIT,
                pause_writes: true,
                pause_reads: true,
            }),
    {
        LinkCore { max_read_unit: DEFAULT_MAX_READ_UNIT, pause_writes: true, pause_reads: true }
    }

    /// Change the chunk bound; takes effect on the next invocation.
    pub fn set_max_read_unit(&mut self, max_read_unit: usize)
        ensures
            *final(self) == (LinkCore { max_read_unit, ..*old(self) }),
    {
        self.max_read_unit = max_read_unit;
    }

    /// Pause or unpause writes; takes effect on the next invocation.
    pub fn set_pause_writes(&mut self, pause: bool)
        ensures
            *final(self) == (LinkCore { pause_writes: pause, ..*old(self) }),
    {
        self.pause_writes = pause;
    }

    /// Pause or unpause reads; takes effect on the next invocation.
    pub fn set_pause_reads(&mut self, pause: bool)
        ensures
            *final(self) == (LinkCore { pause_reads: pause, ..*old(self) }),
    {
        self.pause_reads = pause;
    }

    /// The inbound gate (see [`InPlan`]).  While reads are paused the
    /// transfer is a pure no-op; once the incoming side has recorded a
    /// peer termination, reading past it is meaningless; and a chunk
    /// bound of zero reads nothing, permanently, by definition.
    pub fn in_plan(&self, inc: &Incoming) -> (p: InPlan)
        ensures
            (self.pause_reads || inc.state != EndState::Open || self.max_read_unit == 0) ==> p
                == InPlan::Skip,
            !(self.pause_reads || inc.state != EndState::Open || self.max_read_unit == 0) ==> p
                == (InPlan::Read { max: self.max_read_unit }),
    {
        if self.pause_reads || inc.is_eof() || self.max_read_unit == 0 {
            InPlan::Skip
        } else {
            InPlan::Read { max: self.max_read_unit }
        }
    }
}

} // verus!
