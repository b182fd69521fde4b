//! Userspace access to the messaging channels a host kernel exposes for an
//! offloaded coprocessor: a bidirectional byte-stream device and read-only,
//! line-oriented lifecycle notification files, unified behind one read/send
//! contract.
//!
//! The crate holds the verified core: endpoint resolution, per-shape message
//! framing, timeout and readiness decisions, lifecycle-state parsing and the
//! arithmetic behind the physical-memory window helpers.  The thin host
//! drivers that issue the actual system calls live outside it and hand the
//! core plain values (bytes read, wait outcomes, attribute contents).

pub mod event;
pub mod mmio;
pub mod remoteproc;
pub mod rpmsg;
pub mod text;

pub use event::AsyncRpmsg;
pub use mmio::MmioError;
pub use remoteproc::{RemoteProc, RemoteProcError, RemoteProcState};
pub use rpmsg::{ChannelShape, Rpmsg, RpmsgError};
