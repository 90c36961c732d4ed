//! The duplex byte-buffer pairing that a connector drives.
//!
//! One side ([`Outgoing`]) holds bytes queued for transmission together
//! with the producer's termination announcement; the other side
//! ([`Incoming`]) collects bytes read from the transport together with
//! the terminal flags the connector records for downstream consumers.
//! Each side offers a progress marker ("tripwire"): a snapshot taken
//! before an operation and compared after, which is the connector's
//! sole signal of "did this call accomplish anything".

use vstd::prelude::*;

verus! {

/// Termination state of one direction of the pairing.
///
/// The producer of a direction announces the end of its data either
/// gracefully (`Closing`) or abruptly (`Aborting`); the consumer later
/// acknowledges the announcement, moving it to `Closed` or `Aborted`.
/// Both flags are monotonic: once a direction has left `Open` it never
/// returns there.
#[derive(Clone, Copy, Debug, PartialEq, Eq, Structural)]
pub enum EndState {
    /// More bytes may still be produced.
    Open,
    /// End of data announced gracefully; not yet acted on.
    Closing,
    /// End of data announced gracefully and acted on.
    Closed,
    /// Abrupt termination announced; not yet acted on.
    Aborting,
    /// Abrupt termination announced and acted on.
    Aborted,
}

/// A progress marker: the observable state of one side of the pairing
/// at a moment in time.  Any change to the byte count or to the
/// termination state trips the marker.
#[derive(Clone, Copy, Debug, PartialEq, Eq, Structural)]
pub struct Trip {
    /// Number of bytes held at the time of the snapshot.
    pub len: usize,
    /// Termination state at the time of the snapshot.
    pub state: EndState,
}

/// The outgoing side of the pairing: an ordered byte sequence awaiting
/// transmission, plus the owner's termination announcement.
///
/// The owning application appends bytes with [`Outgoing::push_bytes`]
/// and announces the end of its data with [`Outgoing::close`] (graceful)
/// or [`Outgoing::abort`] (abrupt); the connector drains bytes with
/// [`Outgoing::consume`] and, once it has acted on an announcement,
/// acknowledges it with [`Outgoing::consume_eof`].
pub struct Outgoing {
    /// Bytes queued for transmission, oldest first.
    pub data: Vec<u8>,
    /// The owner's termination announcement and its acknowledgement.
    pub state: EndState,
}

impl Outgoing {
    /// An empty queue with no termination announced.
    pub fn new() -> (r: Self)
        ensures
            r.data@ == Seq::<u8>::empty(),
            r.state == EndState::Open,
    {
        Outgoing { data: Vec::new(), state: EndState::Open }
    }

    /// The progress marker this side would hand out right now.
    pub open spec fn spec_trip(&self) -> Trip {
        Trip { len: self.data@.len() as usize, state: self.state }
    }

    /// Snapshot the progress marker.
    pub fn tripwire(&self) -> (r: Trip)
        ensures
            r == self.spec_trip(),
    {
        Trip { len: self.data.len(), state: self.state }
    }

    /// Whether any observable state changed since `t` was snapshot.
    pub fn is_tripped(&self, t: Trip) -> (r: bool)
        ensures
            r == (t != self.spec_trip()),
    {
        let now = self.tripwire();
        t != now
    }

    /// Number of queued bytes.
    pub fn len(&self) -> (r: usize)
        ensures
            r == self.data@.len(),
    {
        self.data.len()
    }

    /// Whether the queue is empty.
    pub fn is_empty(&self) -> (r: bool)
        ensures
            r == (self.data@.len() == 0),
    {
        self.data.len() == 0
    }

    /// The queued bytes, oldest first, for the driver to offer to the
    /// transport.
    pub fn pending_bytes(&self) -> (r: &Vec<u8>)
        ensures
            r@ == self.data@,
    {
        &self.data
    }

    /// Append bytes to the queue.  Only allowed while no end of data
    /// has been announced: the announcement promises that no more
    /// bytes will ever follow.
    pub fn push_bytes(&mut self, bytes: &[u8])
        requires
            old(self).state == EndState::Open,
        ensures
            final(self).data@ == old(self).data@ + bytes@,
            final(self).state == old(self).state,
    {
        let mut i: usize = 0;
        while i < bytes.len()
            invariant
                i <= bytes@.len(),
                self.data@ == old(self).data@ + bytes@.subrange(0, i as int),
                self.state == old(self).state,
            decreases bytes@.len() - i,
        {
            self.data.push(bytes[i]);
            i = i + 1;
            proof {
                assert(bytes@.subrange(0, i as int)
                    == bytes@.subrange(0, (i - 1) as int).push(bytes@[i - 1]));
            }
        }
        proof {
            assert(bytes@.subrange(0, bytes@.len() as int) == bytes@);
        }
    }

    /// Announce a graceful end of data.  Ignored if an end was already
    /// announced, so a close after an abort stays an abort.
    pub fn close(&mut self)
        ensures
            final(self).data == old(self).data,
            final(self).state == (if old(self).state == EndState::Open {
                EndState::Closing
            } else {
                old(self).state
            }),
    {
        if self.state == EndState::Open {
            self.state = EndState::Closing;
        }
    }

    /// Announce an abrupt end of data.  Ignored if an end was already
    /// announced: at the moment of a graceful close the data was
    /// considered complete, and that announcement may already have
    /// been observed.
    pub fn abort(&mut self)
        ensures
            final(self).data == old(self).data,
            final(self).state == (if old(self).state == EndState::Open {
                EndState::Aborting
            } else {
                old(self).state
            }),
    {
        if self.state == EndState::Open {
            self.state = EndState::Aborting;
        }
    }

    /// Whether an end of data has been announced.  No more bytes may
    /// be pushed once this holds.
    pub fn is_eof(&self) -> (r: bool)
        ensures
            r == (self.state != EndState::Open),
    {
        self.state != EndState::Open
    }

    /// Whether an end of data has been announced and not yet acted on.
    pub fn has_pending_eof(&self) -> (r: bool)
        ensures
            r == (self.state == EndState::Closing || self.state == EndState::Aborting),
    {
        self.state == EndState::Closing || self.state == EndState::Aborting
    }

    /// Whether the announced end of data, if any, was abrupt.
    pub fn is_aborted(&self) -> (r: bool)
        ensures
            r == (self.state == EndState::Aborting || self.state == EndState::Aborted),
    {
        self.state == EndState::Aborting || self.state == EndState::Aborted
    }

    /// Remove the `n` oldest bytes, after the transport accepted them.
    pub fn consume(&mut self, n: usize)
        requires
            n <= old(self).data@.len(),
        ensures
            final(self).data@ == old(self).data@.skip(n as int),
            final(self).state == old(self).state,
    {
        let mut rest: Vec<u8> = Vec::new();
        let mut i: usize = n;
        while i < self.data.len()
            invariant
                n <= i <= self.data@.len(),
                self.data@ == old(self).data@,
                self.state == old(self).state,
                rest@ == self.data@.subrange(n as int, i as int),
            decreases self.data@.len() - i,
        {
            rest.push(self.data[i]);
            i = i + 1;
            proof {
                assert(self.data@.subrange(n as int, i as int)
                    == self.data@.subrange(n as int, (i - 1) as int).push(self.data@[i - 1]));
            }
        }
        proof {
            assert(self.data@.subrange(n as int, self.data@.len() as int)
                == self.data@.skip(n as int));
        }
        self.data = rest;
    }

    /// Acknowledge a pending end of data, once the close it calls for
    /// has been carried out.  Returns whether there was one to
    /// acknowledge; acknowledging twice has no further effect.
    pub fn consume_eof(&mut self) -> (r: bool)
        ensures
            final(self).data == old(self).data,
            final(self).state == spec_consumed(old(self).state),
            r == (old(self).state == EndState::Closing || old(self).state == EndState::Aborting),
    {
        match self.state {
            EndState::Closing => {
                self.state = EndState::Closed;
                true
            },
            EndState::Aborting => {
                self.state = EndState::Aborted;
                true
            },
            _ => false,
        }
    }
}

/// The state a pending end-of-data announcement moves to once it has
/// been acted on; any other state is left as it is.
pub open spec fn spec_consumed(s: EndState) -> EndState {
    if s == EndState::Closing {
        EndState::Closed
    } else if s == EndState::Aborting {
        EndState::Aborted
    } else {
        s
    }
}

/// The incoming side of the pairing: a sink for bytes read from the
/// transport, plus the terminal flags the connector records there.
///
/// The connector appends bytes with [`Incoming::push_bytes`] and
/// records the peer's termination with [`Incoming::close`] (graceful)
/// or [`Incoming::abort`] (abrupt); the downstream consumer drains
/// bytes with [`Incoming::take`] and acknowledges a recorded end with
/// [`Incoming::consume_eof`].
pub struct Incoming {
    /// Bytes received from the transport, oldest first, awaiting the
    /// downstream consumer.
    pub data: Vec<u8>,
    /// The recorded peer termination and its acknowledgement.
    pub state: EndState,
}

impl Incoming {
    /// An empty sink with no termination recorded.
    pub fn new() -> (r: Self)
        ensures
            r.data@ == Seq::<u8>::empty(),
            r.state == EndState::Open,
    {
        Incoming { data: Vec::new(), state: EndState::Open }
    }

    /// The progress marker this side would hand out right now.
    pub open spec fn spec_trip(&self) -> Trip {
        Trip { len: self.data@.len() as usize, state: self.state }
    }

    /// Snapshot the progress marker.
    pub fn tripwire(&self) -> (r: Trip)
        ensures
            r == self.spec_trip(),
    {
        Trip { len: self.data.len(), state: self.state }
    }

    /// Whether any observable state changed since `t` was snapshot.
    pub fn is_tripped(&self, t: Trip) -> (r: bool)
        ensures
            r == (t != self.spec_trip()),
    {
        let now = self.tripwire();
        t != now
    }

    /// Number of bytes awaiting the downstream consumer.
    pub fn len(&self) -> (r: usize)
        ensures
            r == self.data@.len(),
    {
        self.data.len()
    }

    /// Whether a peer termination (graceful or abrupt) has been
    /// recorded.  The connector reads nothing further once this holds.
    pub fn is_eof(&self) -> (r: bool)
        ensures
            r == (self.state != EndState::Open),
    {
        self.state != EndState::Open
    }

    /// Whether the recorded termination, if any, was abrupt.
    pub fn is_aborted(&self) -> (r: bool)
        ensures
            r == (self.state == EndState::Aborting || self.state == EndState::Aborted),
    {
        self.state == EndState::Aborting || self.state == EndState::Aborted
    }

    /// Append bytes received from the transport.  Only meaningful
    /// while no termination has been recorded.
    pub fn push_bytes(&mut self, bytes: &[u8])
        requires
            old(self).state == EndState::Open,
        ensures
            final(self).data@ == old(self).data@ + bytes@,
            final(self).state == old(self).state,
    {
        let mut i: usize = 0;
        while i < bytes.len()
            invariant
                i <= bytes@.len(),
                self.data@ == old(self).data@ + bytes@.subrange(0, i as int),
                self.state == old(self).state,
            decreases bytes@.len() - i,
        {
            self.data.push(bytes[i]);
            i = i + 1;
            proof {
                assert(bytes@.subrange(0, i as int)
                    == bytes@.subrange(0, (i - 1) as int).push(bytes@[i - 1]));
            }
        }
        proof {
            assert(bytes@.subrange(0, bytes@.len() as int) == bytes@);
        }
    }

    /// Record a graceful peer close.  Ignored once a termination has
    /// been recorded: the flags are monotonic.
    pub fn close(&mut self)
        ensures
            final(self).data == old(self).data,
            final(self).state == (if old(self).state == EndState::Open {
                EndState::Closing
            } else {
                old(self).state
            }),
    {
        if self.state == EndState::Open {
            self.state = EndState::Closing;
        }
    }

    /// Record an abrupt peer termination.  Ignored once a termination
    /// has been recorded: the flags are monotonic, and a graceful
    /// close already observed stays a graceful close.
    pub fn abort(&mut self)
        ensures
            final(self).data == old(self).data,
            final(self).state == (if old(self).state == EndState::Open {
                EndState::Aborting
            } else {
                old(self).state
            }),
    {
        if self.state == EndState::Open {
            self.state = EndState::Aborting;
        }
    }

    /// Take all bytes currently held, for the downstream consumer.
    pub fn take(&mut self) -> (r: Vec<u8>)
        ensures
            r@ == old(self).data@,
            final(self).data@ == Seq::<u8>::empty(),
            final(self).state == old(self).state,
    {
        let mut out: Vec<u8> = Vec::new();
        core::mem::swap(&mut out, &mut self.data);
        out
    }

    /// Acknowledge a recorded termination.  Returns whether there was
    /// one pending; acknowledging twice has no further effect.
    pub fn consume_eof(&mut self) -> (r: bool)
        ensures
            final(self).data == old(self).data,
            final(self).state == spec_consumed(old(self).state),
            r == (old(self).state == EndState::Closing || old(self).state == EndState::Aborting),
    {
        match self.state {
            EndState::Closing => {
                self.state = EndState::Closed;
                true
            },
            EndState::Aborting => {
                self.state = EndState::Aborted;
                true
            },
            _ => false,
        }
    }
}

/// Both sides of one pairing, as a connector instance consumes them.
pub struct Duplex {
    /// Bytes travelling from the owning application to the transport.
    pub outgoing: Outgoing,
    /// Bytes travelling from the transport to the owning application.
    pub incoming: Incoming,
}

impl Duplex {
    /// A fresh pairing: both sides empty and open.
    pub fn new() -> (r: Self)
        ensures
            r.outgoing.data@ == Seq::<u8>::empty(),
            r.outgoing.state == EndState::Open,
            r.incoming.data@ == Seq::<u8>::empty(),
            r.incoming.state == EndState::Open,
    {
        Duplex { outgoing: Outgoing::new(), incoming: Incoming::new() }
    }
}

} // verus!
