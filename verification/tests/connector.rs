//! Exercises the connector's decision core and buffer pairing on
//! concrete scenarios.

use std::io::Error;
use std::io::ErrorKind;

use streamlink::AfterWrite;
use streamlink::Duplex;
use streamlink::EndState;
use streamlink::Failure;
use streamlink::InPlan;
use streamlink::Incoming;
use streamlink::IoKind;
use streamlink::OutPrep;
use streamlink::Outgoing;
use streamlink::ReadEnd;
use streamlink::ReadEvent;
use streamlink::ShutdownHow;
use streamlink::SysOutcome;
use streamlink::TcpLink;
use streamlink::UnixStreamLink;
use streamlink::WriteOutcome;
use streamlink::in_finish;
use streamlink::out_after_write;
use streamlink::out_shutdown_result;
use streamlink::retry_wanted;

fn failure(kind: IoKind, ek: ErrorKind, msg: &str) -> Failure {
    Failure { kind, error: Error::new(ek, msg.to_string()) }
}

#[test]
fn inbound_never_exceeds_chunk_bound() {
    let mut link = TcpLink::new();
    link.set_pause_reads(false);
    link.set_max_read_unit(3);
    let mut inc = Incoming::new();
    let max = match link.in_plan(&inc) {
        InPlan::Read { max } => max,
        InPlan::Skip => panic!("expected a read plan"),
    };
    assert_eq!(max, 3);
    // The transport had more than three bytes available, but the read
    // was bounded to three.
    let ev = ReadEvent { bytes: vec![10, 11, 12], end: ReadEnd::Open };
    let r = in_finish(&mut inc, ev, max).unwrap();
    assert!(r);
    assert_eq!(inc.take(), vec![10, 11, 12]);
}

#[test]
fn paused_directions_are_no_ops() {
    let mut link = TcpLink::new();
    // Both directions start paused.
    match link.out_prepare() {
        OutPrep::Paused => {}
        OutPrep::Drive { .. } => panic!("writes start paused"),
    }
    let inc = Incoming::new();
    match link.in_plan(&inc) {
        InPlan::Skip => {}
        InPlan::Read { .. } => panic!("reads start paused"),
    }
    // The paused out_prepare mutated nothing.
    assert_eq!(link.core.max_read_unit, 2048);
    assert!(link.core.pause_writes);
    assert!(link.core.pause_reads);
    assert!(!link.nodelay);
    assert!(!link.pending_set_nodelay);
}

#[test]
fn zero_chunk_bound_reads_nothing() {
    let mut link = UnixStreamLink::new();
    link.set_pause_reads(false);
    link.set_max_read_unit(0);
    let inc = Incoming::new();
    match link.in_plan(&inc) {
        InPlan::Skip => {}
        InPlan::Read { .. } => panic!("a zero chunk bound must not read"),
    }
}

#[test]
fn no_read_past_recorded_termination() {
    let mut link = UnixStreamLink::new();
    link.set_pause_reads(false);
    let mut inc = Incoming::new();
    inc.close();
    match link.in_plan(&inc) {
        InPlan::Skip => {}
        InPlan::Read { .. } => panic!("reading past a recorded close is meaningless"),
    }
}

#[test]
fn graceful_close_fires_once_across_invocations() {
    let mut d = Duplex::new();
    d.outgoing.push_bytes(b"abc");
    d.outgoing.close();

    // First invocation: the transport accepts two bytes, then blocks.
    let trip = d.outgoing.tripwire();
    d.outgoing.consume(2);
    let oc = WriteOutcome::Failed(failure(IoKind::WouldBlock, ErrorKind::WouldBlock, "full"));
    match out_after_write(&d.outgoing, &mut d.incoming, oc) {
        AfterWrite::NoClose => {}
        _ => panic!("a blocked drain must not close"),
    }
    assert!(d.outgoing.is_tripped(trip));

    // Second invocation: the last byte drains; the close trigger fires.
    d.outgoing.consume(1);
    match out_after_write(&d.outgoing, &mut d.incoming, WriteOutcome::Wrote) {
        AfterWrite::Shutdown(ShutdownHow::WriteHalf) => {}
        _ => panic!("a graceful close shuts down the write half"),
    }
    // The shutdown would block: nothing is acknowledged yet.
    let oc = SysOutcome::Failed(failure(IoKind::WouldBlock, ErrorKind::WouldBlock, "busy"));
    assert!(out_shutdown_result(&mut d.outgoing, oc).is_none());
    assert!(d.outgoing.has_pending_eof());

    // Third invocation: the trigger fires again and the shutdown lands.
    match out_after_write(&d.outgoing, &mut d.incoming, WriteOutcome::Wrote) {
        AfterWrite::Shutdown(ShutdownHow::WriteHalf) => {}
        _ => panic!("the close must be retried until it lands"),
    }
    assert!(out_shutdown_result(&mut d.outgoing, SysOutcome::Done).is_none());
    assert_eq!(d.outgoing.state, EndState::Closed);

    // Fourth invocation: the close logic is spent; nothing fires.
    let trip = d.outgoing.tripwire();
    match out_after_write(&d.outgoing, &mut d.incoming, WriteOutcome::Wrote) {
        AfterWrite::NoClose => {}
        _ => panic!("the close must fire exactly once"),
    }
    assert!(!d.outgoing.is_tripped(trip));
    // The incoming side was never touched.
    assert_eq!(d.incoming.state, EndState::Open);
    assert_eq!(d.incoming.len(), 0);
}

#[test]
fn aborted_close_shuts_both_and_propagates() {
    let mut d = Duplex::new();
    d.outgoing.push_bytes(b"x");
    d.outgoing.abort();
    d.outgoing.consume(1);
    match out_after_write(&d.outgoing, &mut d.incoming, WriteOutcome::Wrote) {
        AfterWrite::Shutdown(ShutdownHow::Both) => {}
        _ => panic!("an abrupt close shuts down both directions"),
    }
    assert!(d.incoming.is_aborted());
    assert!(out_shutdown_result(&mut d.outgoing, SysOutcome::Done).is_none());
    assert_eq!(d.outgoing.state, EndState::Aborted);
}

#[test]
fn aborted_close_leaves_terminated_incoming_alone() {
    let mut out = Outgoing::new();
    out.abort();
    let mut inc = Incoming::new();
    inc.close();
    match out_after_write(&out, &mut inc, WriteOutcome::Wrote) {
        AfterWrite::Shutdown(ShutdownHow::Both) => {}
        _ => panic!("an abrupt close shuts down both directions"),
    }
    // The incoming side had already recorded a graceful close; the
    // abort is not recorded over it.
    assert_eq!(inc.state, EndState::Closing);
    assert!(!inc.is_aborted());
}

#[test]
fn peer_reset_is_recorded_not_surfaced() {
    let mut inc = Incoming::new();
    let ev = ReadEvent {
        bytes: Vec::new(),
        end: ReadEnd::Failed(failure(
            IoKind::ConnectionReset,
            ErrorKind::ConnectionReset,
            "reset by peer",
        )),
    };
    let r = in_finish(&mut inc, ev, 2048);
    assert_eq!(r.unwrap(), true);
    assert!(inc.is_aborted());
}

#[test]
fn peer_abort_with_data_keeps_the_data() {
    let mut inc = Incoming::new();
    let ev = ReadEvent {
        bytes: vec![1, 2],
        end: ReadEnd::Failed(failure(
            IoKind::ConnectionAborted,
            ErrorKind::ConnectionAborted,
            "aborted",
        )),
    };
    let r = in_finish(&mut inc, ev, 4);
    assert_eq!(r.unwrap(), true);
    assert!(inc.is_aborted());
    assert_eq!(inc.take(), vec![1, 2]);
}

#[test]
fn fatal_write_failure_surfaces_verbatim() {
    let out = Outgoing::new();
    let mut inc = Incoming::new();
    let oc = WriteOutcome::Failed(failure(IoKind::Other, ErrorKind::BrokenPipe, "pipe broke"));
    match out_after_write(&out, &mut inc, oc) {
        AfterWrite::Fatal(e) => {
            assert_eq!(e.kind(), ErrorKind::BrokenPipe);
            assert_eq!(e.to_string(), "pipe broke");
        }
        _ => panic!("an unclassified write failure is fatal"),
    }
    // No further state mutation in that call.
    assert_eq!(inc.state, EndState::Open);
    assert_eq!(inc.len(), 0);
}

#[test]
fn fatal_read_failure_surfaces_verbatim() {
    let mut inc = Incoming::new();
    let ev = ReadEvent {
        bytes: Vec::new(),
        end: ReadEnd::Failed(failure(IoKind::Other, ErrorKind::PermissionDenied, "denied")),
    };
    let e = in_finish(&mut inc, ev, 2048).unwrap_err();
    assert_eq!(e.kind(), ErrorKind::PermissionDenied);
    assert_eq!(e.to_string(), "denied");
    assert_eq!(inc.state, EndState::Open);
}

#[test]
fn fatal_shutdown_failure_surfaces_verbatim() {
    let mut out = Outgoing::new();
    out.close();
    let oc = SysOutcome::Failed(failure(IoKind::Other, ErrorKind::NotConnected, "gone"));
    let e = out_shutdown_result(&mut out, oc).unwrap();
    assert_eq!(e.kind(), ErrorKind::NotConnected);
    // Nothing was acknowledged.
    assert!(out.has_pending_eof());
}

#[test]
fn idle_invocation_makes_no_progress() {
    let mut d = Duplex::new();
    let out_trip = d.outgoing.tripwire();
    let in_trip = d.incoming.tripwire();

    // Outbound: nothing queued, nothing announced, the drain moves
    // nothing.
    match out_after_write(&d.outgoing, &mut d.incoming, WriteOutcome::Wrote) {
        AfterWrite::NoClose => {}
        _ => panic!("an idle drain must not close"),
    }
    assert!(!d.outgoing.is_tripped(out_trip));

    // Inbound: no bytes were available.
    let ev = ReadEvent {
        bytes: Vec::new(),
        end: ReadEnd::Failed(failure(IoKind::WouldBlock, ErrorKind::WouldBlock, "empty")),
    };
    let r = in_finish(&mut d.incoming, ev, 2048).unwrap();
    assert_eq!(r, false);
    assert!(!d.incoming.is_tripped(in_trip));
    assert_eq!(d.incoming.state, EndState::Open);
    assert_eq!(d.incoming.len(), 0);
}

#[test]
fn hello_drains_and_half_closes_in_one_invocation() {
    let mut link = TcpLink::new();
    link.set_pause_writes(false);
    let mut d = Duplex::new();
    d.outgoing.push_bytes(b"hello");
    d.outgoing.close();

    match link.out_prepare() {
        OutPrep::Drive { set_nodelay: None } => {}
        _ => panic!("no option change was requested"),
    }
    let trip = d.outgoing.tripwire();
    // The transport accepts all five bytes at once.
    assert_eq!(d.outgoing.pending_bytes().as_slice(), &b"hello"[..]);
    d.outgoing.consume(5);
    match out_after_write(&d.outgoing, &mut d.incoming, WriteOutcome::Wrote) {
        AfterWrite::Shutdown(ShutdownHow::WriteHalf) => {}
        _ => panic!("draining with a pending close must half-close"),
    }
    assert!(out_shutdown_result(&mut d.outgoing, SysOutcome::Done).is_none());
    assert!(d.outgoing.is_tripped(trip));
    assert_eq!(d.outgoing.state, EndState::Closed);
    // The incoming side is unaffected.
    assert_eq!(d.incoming.state, EndState::Open);
    assert_eq!(d.incoming.len(), 0);
}

#[test]
fn reset_during_read_reports_progress_without_error() {
    let mut link = TcpLink::new();
    link.set_pause_reads(false);
    let mut d = Duplex::new();
    let max = match link.in_plan(&d.incoming) {
        InPlan::Read { max } => max,
        InPlan::Skip => panic!("expected a read plan"),
    };
    let ev = ReadEvent {
        bytes: Vec::new(),
        end: ReadEnd::Failed(failure(IoKind::ConnectionReset, ErrorKind::ConnectionReset, "rst")),
    };
    let r = in_finish(&mut d.incoming, ev, max);
    assert_eq!(r.unwrap(), true);
    assert!(d.incoming.is_aborted());
}

#[test]
fn graceful_peer_close_records_end_of_data() {
    let mut inc = Incoming::new();
    let ev = ReadEvent { bytes: vec![7], end: ReadEnd::Eof };
    let r = in_finish(&mut inc, ev, 8).unwrap();
    assert!(r);
    assert_eq!(inc.state, EndState::Closing);
    assert_eq!(inc.take(), vec![7]);
    // The downstream consumer acknowledges the recorded close.
    assert!(inc.consume_eof());
    assert_eq!(inc.state, EndState::Closed);
    assert!(!inc.consume_eof());
}

#[test]
fn retry_policy_retries_only_interruptions() {
    assert!(retry_wanted(IoKind::Interrupted));
    assert!(!retry_wanted(IoKind::WouldBlock));
    assert!(!retry_wanted(IoKind::ConnectionReset));
    assert!(!retry_wanted(IoKind::ConnectionAborted));
    assert!(!retry_wanted(IoKind::Other));
}

#[test]
fn nodelay_change_is_latched_and_applied_once() {
    let mut link = TcpLink::new();
    link.set_pause_writes(false);
    // Requesting the value already in force latches nothing.
    link.set_nodelay(false);
    assert!(!link.pending_set_nodelay);
    // A real change is applied on the next outbound invocation only.
    link.set_nodelay(true);
    assert!(link.pending_set_nodelay);
    match link.out_prepare() {
        OutPrep::Drive { set_nodelay: Some(true) } => {}
        _ => panic!("the latched change must be applied now"),
    }
    match link.out_prepare() {
        OutPrep::Drive { set_nodelay: None } => {}
        _ => panic!("the latch was already consumed"),
    }
}

#[test]
fn nodelay_latch_survives_a_paused_invocation() {
    let mut link = TcpLink::new();
    link.set_nodelay(true);
    match link.out_prepare() {
        OutPrep::Paused => {}
        _ => panic!("writes start paused"),
    }
    assert!(link.pending_set_nodelay);
    link.set_pause_writes(false);
    match link.out_prepare() {
        OutPrep::Drive { set_nodelay: Some(true) } => {}
        _ => panic!("the latch holds until a drive applies it"),
    }
}

#[test]
fn unix_defaults_and_gates_match_tcp_core() {
    let mut link = UnixStreamLink::new();
    assert_eq!(link.core.max_read_unit, 2048);
    assert!(link.core.pause_writes);
    assert!(link.core.pause_reads);
    match link.out_prepare() {
        OutPrep::Paused => {}
        _ => panic!("writes start paused"),
    }
    link.set_pause_writes(false);
    match link.out_prepare() {
        OutPrep::Drive { set_nodelay: None } => {}
        _ => panic!("the plain variant never requests an option change"),
    }
    link.set_max_read_unit(16);
    link.set_pause_reads(false);
    let inc = Incoming::new();
    match link.in_plan(&inc) {
        InPlan::Read { max } => assert_eq!(max, 16),
        InPlan::Skip => panic!("reads were unpaused"),
    }
}

#[test]
fn default_matches_new() {
    let t = TcpLink::default();
    assert_eq!(t.core.max_read_unit, 2048);
    assert!(t.core.pause_writes && t.core.pause_reads);
    assert!(!t.nodelay && !t.pending_set_nodelay);
    let u = UnixStreamLink::default();
    assert_eq!(u.core.max_read_unit, 2048);
    assert!(u.core.pause_writes && u.core.pause_reads);
}

#[test]
fn outgoing_queue_consumes_from_the_front() {
    let mut out = Outgoing::new();
    out.push_bytes(b"abcde");
    out.consume(2);
    assert_eq!(out.pending_bytes().as_slice(), &b"cde"[..]);
    assert_eq!(out.len(), 3);
    out.consume(3);
    assert!(out.is_empty());
}

#[test]
fn close_after_abort_stays_an_abort() {
    let mut out = Outgoing::new();
    out.abort();
    out.close();
    assert_eq!(out.state, EndState::Aborting);
    assert!(out.is_aborted());
    let mut inc = Incoming::new();
    inc.close();
    inc.abort();
    assert_eq!(inc.state, EndState::Closing);
    assert!(!inc.is_aborted());
}

#[test]
fn progress_marker_trips_on_flag_changes_alone() {
    let mut out = Outgoing::new();
    let trip = out.tripwire();
    assert!(!out.is_tripped(trip));
    out.close();
    assert!(out.is_tripped(trip));

    let mut inc = Incoming::new();
    let trip = inc.tripwire();
    inc.abort();
    assert!(inc.is_tripped(trip));
}
