//! Finding out, after the fact, what transport an open socket really uses.
//!
//! The kernel is the only one who knows, and it may change its mind: an
//! MPTCP connection can fall back to plain TCP at any time. So nothing is
//! remembered here. The caller reads the socket options that this module
//! names, at the moment it wants to know, and gets the answer for that
//! moment. The answer is the best signal the platform has, not more:
//!
//! - On Linux with the per-connection record (`MPTCP_INFO`), a fallback is
//!   read from the record's flag. A record that cannot be read counts as
//!   a fallback, whatever the reason it could not be read.
//! - On Linux without the record, and on Darwin, a fallback cannot be seen
//!   at all. "Has fallen back" is then taken to mean "is not an MPTCP
//!   socket", so an MPTCP socket is never reported as fallen back there,
//!   even if it has.
//! - On Darwin any answer to the service-type option marks an MPTCP socket,
//!   whatever the value.
use vstd::prelude::*;
use crate::error::MptcpError;
use crate::platform::{
    IPPROTO_MPTCP,
    IPPROTO_TCP,
    MPTCP_INFO,
    MPTCP_INFO_FLAG_FALLBACK,
    MPTCP_SERVICE_TYPE,
    Platform,
    SOL_MPTCP,
    SOL_SOCKET,
    SO_PROTOCOL,
};

verus! {

/// The transport of an open socket, as far as the platform lets it be known.
#[derive(Debug, Clone, Copy, PartialEq, Eq, Structural)]
pub enum MptcpStatus {
    /// The socket is a plain TCP socket.
    Tcp,
    /// The socket was opened as Multipath TCP; `has_fallback` says whether
    /// it is known to have fallen back to plain TCP since.
    Mptcp { has_fallback: bool },
}

/// A socket option by its level and its name.
#[derive(Debug, Clone, Copy, PartialEq, Eq, Structural)]
pub struct SockOpt {
    pub level: i32,
    pub name: i32,
}

/// The integer option whose reading tells whether a socket is an MPTCP
/// socket on `platform`, if the platform has one.
pub open spec fn spec_identity_option(platform: Platform) -> Option<SockOpt> {
    match platform {
        Platform::Linux => Some(SockOpt { level: SOL_SOCKET, name: SO_PROTOCOL }),
        Platform::Darwin => Some(SockOpt { level: IPPROTO_TCP, name: MPTCP_SERVICE_TYPE }),
        Platform::Other => None,
    }
}

/// The integer option to read to tell whether a socket is an MPTCP socket:
/// the socket's protocol on Linux, the multipath service type on Darwin,
/// nothing elsewhere.
#[verifier::when_used_as_spec(spec_identity_option)]
pub fn identity_option(platform: Platform) -> (opt: Option<SockOpt>)
    ensures
        opt == spec_identity_option(platform),
{
    match platform {
        Platform::Linux => Some(SockOpt { level: SOL_SOCKET, name: SO_PROTOCOL }),
        Platform::Darwin => Some(SockOpt { level: IPPROTO_TCP, name: MPTCP_SERVICE_TYPE }),
        Platform::Other => None,
    }
}

/// The option that holds the per-connection MPTCP record, where there is one
/// to read.
pub open spec fn spec_info_option(platform: Platform, extended_info: bool) -> Option<SockOpt> {
    if platform == Platform::Linux && extended_info {
        Some(SockOpt { level: SOL_MPTCP, name: MPTCP_INFO })
    } else {
        None
    }
}

/// The option to read for the per-connection MPTCP record: only Linux has
/// it, and only a kernel that is new enough (`extended_info`).
#[verifier::when_used_as_spec(spec_info_option)]
pub fn info_option(platform: Platform, extended_info: bool) -> (opt: Option<SockOpt>)
    ensures
        opt == spec_info_option(platform, extended_info),
{
    match platform {
        Platform::Linux => if extended_info {
            Some(SockOpt { level: SOL_MPTCP, name: MPTCP_INFO })
        } else {
            None
        },
        _ => None,
    }
}

/// Whether the fallback bit is set in the flags of an MPTCP record.
pub open spec fn fallback_flag_set(flags: u32) -> bool {
    flags & MPTCP_INFO_FLAG_FALLBACK != 0
}

/// What was read from one socket at one moment.
///
/// `identity` is the reading of the platform's identity option and `info`
/// the flags of the MPTCP record; each is `None` where the option was not
/// read, and an error where reading it failed.
#[derive(Debug, Clone, Copy)]
pub struct MptcpSocketRef {
    platform: Platform,
    identity: Option<Result<i32, MptcpError>>,
    info: Option<Result<u32, MptcpError>>,
}

impl MptcpSocketRef {
    /// The platform the readings come from.
    pub closed spec fn platform(self) -> Platform {
        self.platform
    }

    /// The reading of the identity option.
    pub closed spec fn identity(self) -> Option<Result<i32, MptcpError>> {
        self.identity
    }

    /// The reading of the flags of the MPTCP record.
    pub closed spec fn info(self) -> Option<Result<u32, MptcpError>> {
        self.info
    }

    /// Puts the readings of one socket together.
    pub fn new(
        platform: Platform,
        identity: Option<Result<i32, MptcpError>>,
        info: Option<Result<u32, MptcpError>>,
    ) -> (sock: Self)
        ensures
            sock.platform() == platform,
            sock.identity() == identity,
            sock.info() == info,
    {
        MptcpSocketRef { platform, identity, info }
    }

    /// Reads a socket: asks `read_int` for the platform's identity option
    /// and `read_flags` for the flags of the MPTCP record, each only where
    /// `platform` and `extended_info` say there is such an option, and keeps
    /// what comes back. On a platform without MPTCP nothing is read.
    pub fn read<F, G>(platform: Platform, extended_info: bool, read_int: F, read_flags: G) -> (sock:
        Self) where
        F: FnOnce(SockOpt) -> Result<i32, MptcpError>,
        G: FnOnce(SockOpt) -> Result<u32, MptcpError>,

        requires
            spec_identity_option(platform) matches Some(opt) ==> call_requires(read_int, (opt,)),
            spec_info_option(platform, extended_info) matches Some(opt) ==> call_requires(
                read_flags,
                (opt,),
            ),
        ensures
            sock.platform() == platform,
            match spec_identity_option(platform) {
                Some(opt) => (sock.identity() matches Some(reading) && call_ensures(
                    read_int,
                    (opt,),
                    reading,
                )),
                None => sock.identity() is None,
            },
            match spec_info_option(platform, extended_info) {
                Some(opt) => (sock.info() matches Some(reading) && call_ensures(
                    read_flags,
                    (opt,),
                    reading,
                )),
                None => sock.info() is None,
            },
    {
        let identity = match identity_option(platform) {
            Some(opt) => Some(read_int(opt)),
            None => None,
        };
        let info = match info_option(platform, extended_info) {
            Some(opt) => Some(read_flags(opt)),
            None => None,
        };
        MptcpSocketRef { platform, identity, info }
    }

    /// Whether the readings show an MPTCP socket.
    pub open spec fn spec_is_mptcp_socket(&self) -> bool {
        match self.platform() {
            Platform::Linux => self.identity() == Some(Ok::<i32, MptcpError>(IPPROTO_MPTCP)),
            Platform::Darwin => self.identity() matches Some(Ok(_)),
            Platform::Other => false,
        }
    }

    /// Whether the socket is an MPTCP socket: on Linux its protocol reads as
    /// MPTCP; on Darwin the service-type option could be read at all.
    /// A reading that failed or was not made says no, and so does a platform
    /// without MPTCP.
    #[verifier::when_used_as_spec(spec_is_mptcp_socket)]
    pub fn is_mptcp_socket(&self) -> (b: bool)
        ensures
            b == self.spec_is_mptcp_socket(),
    {
        match self.platform {
            Platform::Linux => match self.identity {
                Some(Ok(protocol)) => protocol == IPPROTO_MPTCP,
                _ => false,
            },
            Platform::Darwin => match self.identity {
                Some(Ok(_)) => true,
                _ => false,
            },
            Platform::Other => false,
        }
    }

    /// Whether the readings show a socket that has fallen back.
    pub open spec fn spec_has_fallback(&self) -> bool {
        match self.platform() {
            Platform::Linux => match self.info() {
                Some(Ok(flags)) => fallback_flag_set(flags),
                Some(Err(_)) => true,
                None => !self.spec_is_mptcp_socket(),
            },
            Platform::Darwin => !self.spec_is_mptcp_socket(),
            Platform::Other => false,
        }
    }

    /// Whether the socket has fallen back to plain TCP, by the best signal
    /// at hand. On Linux with the MPTCP record: the record's fallback flag,
    /// and yes if the record could not be read. On Linux without the record,
    /// and on Darwin: yes exactly if the socket is no MPTCP socket. On
    /// a platform without MPTCP: no.
    #[verifier::when_used_as_spec(spec_has_fallback)]
    pub fn has_fallback(&self) -> (b: bool)
        ensures
            b == self.spec_has_fallback(),
    {
        match self.platform {
            Platform::Linux => match self.info {
                Some(Ok(flags)) => flags & MPTCP_INFO_FLAG_FALLBACK != 0,
                Some(Err(_)) => true,
                None => !self.is_mptcp_socket(),
            },
            Platform::Darwin => !self.is_mptcp_socket(),
            Platform::Other => false,
        }
    }

    /// The status that the readings show.
    pub open spec fn spec_mptcp_status(&self) -> MptcpStatus {
        if self.spec_is_mptcp_socket() {
            MptcpStatus::Mptcp { has_fallback: self.spec_has_fallback() }
        } else {
            MptcpStatus::Tcp
        }
    }

    /// The status of the socket: plain TCP if it is no MPTCP socket, and
    /// else MPTCP together with what is known of a fallback.
    #[verifier::when_used_as_spec(spec_mptcp_status)]
    pub fn mptcp_status(&self) -> (status: MptcpStatus)
        ensures
            status == self.spec_mptcp_status(),
            status == MptcpStatus::Tcp <==> !self.spec_is_mptcp_socket(),
            self.spec_is_mptcp_socket() && (self.platform() == Platform::Darwin || self.info()
                is None) ==> status == (MptcpStatus::Mptcp { has_fallback: false }),
    {
        if self.is_mptcp_socket() {
            MptcpStatus::Mptcp { has_fallback: self.has_fallback() }
        } else {
            MptcpStatus::Tcp
        }
    }
}

/// On a kernel that has the MPTCP record, a socket whose protocol reads as
/// MPTCP is reported as MPTCP, and as fallen back exactly if the fallback
/// bit of the record is set: a fresh connection between two MPTCP peers has
/// it clear, a connection to a peer that only speaks TCP has it set.
pub proof fn record_decides_fallback(sock: MptcpSocketRef, flags: u32)
    requires
        sock.platform() == Platform::Linux,
        sock.identity() == Some(Ok::<i32, MptcpError>(IPPROTO_MPTCP)),
        sock.info() == Some(Ok::<u32, MptcpError>(flags)),
    ensures
        sock.spec_mptcp_status() == (MptcpStatus::Mptcp { has_fallback: fallback_flag_set(flags) }),
        !fallback_flag_set(0),
        fallback_flag_set(MPTCP_INFO_FLAG_FALLBACK),
{
    assert(0u32 & 1u32 == 0u32) by (bit_vector);
    assert(1u32 & 1u32 != 0u32) by (bit_vector);
}

} // verus!
