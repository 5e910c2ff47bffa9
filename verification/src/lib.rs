//! Multipath TCP for ordinary sockets: the decisions, apart from the system
//! calls.
//!
//! A process that wants MPTCP has to choose the right socket domain and
//! protocol for its platform, tolerate a connect that is still in progress,
//! try the addresses of its target in order, fall back to plain TCP when the
//! policy allows it, and afterwards find out whether the kernel really
//! negotiated MPTCP. This crate holds those decisions as verified functions
//! over plain values.
//!
//! It makes no call on a socket itself. Where a decision needs one, the
//! caller lends it as a function, or makes it and reports the outcome; the
//! contracts say what is decided for every outcome. The one thing the crate
//! asks the system directly is what the running kernel offers.
//!
//! - `socket`: the tagged handle a caller ends up with.
//! - `error`: the error kinds of the crate.
//! - `platform`: the platforms the crate tells apart, and their constants.
//! - `addr`: socket addresses and socket domains.
//! - `builder`: the per-platform plan that opens a socket.
//! - `resolve`: walking the candidate addresses of a target.
//! - `fallback`: falling back to plain TCP, or not.
//! - `status`: reading the state of an open socket.
//! - `kernel`: what the running kernel offers.
pub mod addr;
pub mod builder;
pub mod error;
pub mod fallback;
pub mod kernel;
pub mod platform;
pub mod resolve;
pub mod socket;
pub mod status;

pub use addr::{Domain, SocketAddress};
pub use builder::{MptcpSocketBuilder, SocketCall, SocketPlan};
pub use error::MptcpError;
pub use fallback::{with_fallback, MptcpOpt};
pub use kernel::{has_mptcp_info, is_mptcp_enabled, KernelVersion};
pub use platform::Platform;
pub use resolve::{resolve_each_addr, AddrWalk, WalkStep};
pub use socket::MptcpSocket;
pub use status::{MptcpSocketRef, MptcpStatus, SockOpt};
