//! The platforms the crate knows, and their numeric constants.
//!
//! The constants are written out here because the crate reasons about every
//! platform at once, whatever machine it is built on. The Linux values are
//! those of the architectures that share the generic numbering, among them
//! x86, ARM and RISC-V.
use vstd::prelude::*;

verus! {

/// The protocol number of Multipath TCP on Linux.
pub const IPPROTO_MPTCP: i32 = 262;

/// The protocol number of TCP, also the level of TCP socket options.
pub const IPPROTO_TCP: i32 = 6;

/// The level of generic socket options on Linux.
pub const SOL_SOCKET: i32 = 1;

/// The Linux socket option that reads the protocol of a socket.
pub const SO_PROTOCOL: i32 = 38;

/// The level of Multipath TCP socket options on Linux.
pub const SOL_MPTCP: i32 = 284;

/// The Linux socket option that reads the per-connection MPTCP record.
pub const MPTCP_INFO: i32 = 1;

/// The bit of the record's flags that is set once the connection has fallen
/// back to plain TCP.
pub const MPTCP_INFO_FLAG_FALLBACK: u32 = 1;

/// The socket domain of multipath sockets on Darwin.
pub const AF_MULTIPATH: i32 = 39;

/// The Darwin TCP-level option that only a multipath socket answers.
pub const MPTCP_SERVICE_TYPE: i32 = 531;

/// "Operation now in progress" on Linux.
pub const EINPROGRESS_LINUX: i32 = 115;

/// "Operation now in progress" on Darwin.
pub const EINPROGRESS_DARWIN: i32 = 36;

/// The backlog handed to `listen`: zero leaves the choice to the system.
pub const LISTEN_BACKLOG: i32 = 0;

/// The families of operating systems the crate tells apart.
#[derive(Debug, Clone, Copy, PartialEq, Eq, Structural)]
pub enum Platform {
    /// Linux: MPTCP is a protocol of the ordinary IP socket domains.
    Linux,
    /// macOS and iOS: MPTCP is a socket domain of its own.
    Darwin,
    /// Any other system: no MPTCP at all.
    Other,
}

impl Platform {
    /// The code with which the platform reports a connect that has been
    /// started and not yet finished; none for a platform without MPTCP.
    pub open spec fn spec_in_progress_code(&self) -> Option<i32> {
        match *self {
            Platform::Linux => Some(EINPROGRESS_LINUX),
            Platform::Darwin => Some(EINPROGRESS_DARWIN),
            Platform::Other => None,
        }
    }

    /// The code with which the platform reports a connect that has been
    /// started and not yet finished; none for a platform without MPTCP.
    #[verifier::when_used_as_spec(spec_in_progress_code)]
    pub fn in_progress_code(&self) -> (code: Option<i32>)
        ensures
            code == self.spec_in_progress_code(),
    {
        match *self {
            Platform::Linux => Some(EINPROGRESS_LINUX),
            Platform::Darwin => Some(EINPROGRESS_DARWIN),
            Platform::Other => None,
        }
    }
}

} // verus!
