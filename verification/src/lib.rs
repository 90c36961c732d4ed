//! Connectors that shuttle bytes between a readiness-driven byte stream
//! (a TCP or Unix-domain socket) and a pair of in-memory byte queues,
//! while preserving stream-termination semantics (graceful close versus
//! abrupt abort) in both directions.
//!
//! The connector never performs a system call itself: every decision it
//! makes — pause gating, error classification, the close/abort state
//! machine, progress detection — is a verified function from the
//! current state and an I/O outcome to the next state and the next
//! action.  A thin driver owns the socket, performs the actions these
//! functions request, and hands the outcomes back; the driver itself
//! decides nothing.

pub mod drive;
pub mod duplex;
pub mod laws;
pub mod link;
pub mod tcpstream;
pub mod unixstream;

pub use drive::AfterWrite;
pub use drive::Failure;
pub use drive::InPlan;
pub use drive::IoKind;
pub use drive::OutPrep;
pub use drive::ReadEnd;
pub use drive::ReadEvent;
pub use drive::ShutdownHow;
pub use drive::SysOutcome;
pub use drive::WriteOutcome;
pub use drive::in_finish;
pub use drive::out_after_write;
pub use drive::out_shutdown_result;
pub use drive::retry_wanted;
pub use duplex::Duplex;
pub use duplex::EndState;
pub use duplex::Incoming;
pub use duplex::Outgoing;
pub use duplex::Trip;
pub use link::LinkCore;
pub use tcpstream::TcpLink;
pub use unixstream::UnixStreamLink;
