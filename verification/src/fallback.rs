//! What to do when Multipath TCP cannot be had.
//!
//! The caller chooses, call by call: fall back to plain TCP, or fail. The
//! result says which transport it was in the end.
use vstd::prelude::*;
use crate::error::MptcpError;
use crate::socket::MptcpSocket;

verus! {

/// Whether a failed Multipath TCP attempt may be answered with plain TCP.
#[derive(Debug, Clone, Copy, PartialEq, Eq, Structural)]
pub enum MptcpOpt {
    /// Fall back to plain TCP when Multipath TCP cannot be had.
    Fallback,
    /// Fail when Multipath TCP cannot be had.
    NoFallback,
}

/// What the caller does once the Multipath TCP attempt is over.
pub enum FallbackStep<T> {
    /// Nothing more: this is the result.
    Done(Result<MptcpSocket<T>, MptcpError>),
    /// Make the plain TCP attempt and hand its outcome to `after_tcp`.
    TryTcp,
}

/// The result of a plain TCP attempt: its socket tagged as plain TCP, or
/// its error as it is.
pub open spec fn tcp_result<T>(tcp: Result<T, MptcpError>) -> Result<MptcpSocket<T>, MptcpError> {
    match tcp {
        Ok(sock) => Ok(MptcpSocket::Tcp(sock)),
        Err(err) => Err(err),
    }
}

/// The result of the whole operation, from the outcome of the Multipath TCP
/// attempt, the policy, and the outcome that the plain TCP attempt has if it
/// is made.
pub open spec fn fallback_result<T>(
    mptcp: Result<T, MptcpError>,
    opt: MptcpOpt,
    tcp: Result<T, MptcpError>,
) -> Result<MptcpSocket<T>, MptcpError> {
    match mptcp {
        Ok(sock) => Ok(MptcpSocket::Mptcp(sock)),
        Err(err) => match opt {
            MptcpOpt::NoFallback => Err(err),
            MptcpOpt::Fallback => tcp_result(tcp),
        },
    }
}

/// Decides what follows the Multipath TCP attempt. Its success is the
/// result, tagged as Multipath TCP. Its failure is the result only under
/// `NoFallback`; under `Fallback` the error is dropped and plain TCP is to
/// be tried.
pub fn after_mptcp<T>(attempt: Result<T, MptcpError>, opt: MptcpOpt) -> (step: FallbackStep<T>)
    ensures
        attempt matches Ok(sock) ==> step == FallbackStep::Done(Ok(MptcpSocket::Mptcp(sock))),
        attempt matches Err(err) ==> opt == MptcpOpt::NoFallback ==> step == FallbackStep::<
            T,
        >::Done(Err(err)),
        attempt is Err ==> opt == MptcpOpt::Fallback ==> step == FallbackStep::<T>::TryTcp,
{
    match attempt {
        Ok(sock) => FallbackStep::Done(Ok(MptcpSocket::Mptcp(sock))),
        Err(err) => match opt {
            MptcpOpt::Fallback => FallbackStep::TryTcp,
            MptcpOpt::NoFallback => FallbackStep::Done(Err(err)),
        },
    }
}

/// Turns the outcome of the plain TCP attempt into the result: a success is
/// tagged as plain TCP, a failure is handed on as it is.
pub fn after_tcp<T>(attempt: Result<T, MptcpError>) -> (result: Result<MptcpSocket<T>, MptcpError>)
    ensures
        result == tcp_result(attempt),
{
    match attempt {
        Ok(sock) => Ok(MptcpSocket::Tcp(sock)),
        Err(err) => Err(err),
    }
}

/// Completes a Multipath TCP attempt under a fallback policy. `tcp` makes
/// the plain TCP attempt; it is called only where the Multipath TCP attempt
/// failed and the policy is `Fallback`, and then its outcome decides.
pub fn with_fallback<T, G>(attempt: Result<T, MptcpError>, opt: MptcpOpt, tcp: G) -> (result: Result<
    MptcpSocket<T>,
    MptcpError,
>) where G: FnOnce() -> Result<T, MptcpError>
    requires
        attempt is Err && opt == MptcpOpt::Fallback ==> call_requires(tcp, ()),
    ensures
        attempt matches Ok(sock) ==> result == Ok::<MptcpSocket<T>, MptcpError>(
            MptcpSocket::Mptcp(sock),
        ),
        attempt matches Err(err) ==> opt == MptcpOpt::NoFallback ==> result == Err::<
            MptcpSocket<T>,
            MptcpError,
        >(err),
        attempt is Err && opt == MptcpOpt::Fallback ==> exists|outcome: Result<T, MptcpError>|
            #[trigger] call_ensures(tcp, (), outcome) && result == tcp_result(outcome),
{
    match after_mptcp(attempt, opt) {
        FallbackStep::Done(result) => result,
        FallbackStep::TryTcp => {
            let outcome = tcp();
            let result = after_tcp(outcome);
            assert(call_ensures(tcp, (), outcome) && result == tcp_result(outcome));
            result
        },
    }
}

/// Where Multipath TCP cannot be had, the policy decides alone: under
/// `Fallback` a plain TCP attempt that succeeds gives that socket, tagged as
/// plain TCP, and under `NoFallback` the operation fails with the error of
/// the Multipath TCP attempt, whatever plain TCP could have done.
pub proof fn failed_mptcp_follows_the_policy<T>(
    err: MptcpError,
    sock: T,
    tcp: Result<T, MptcpError>,
)
    ensures
        fallback_result(Err(err), MptcpOpt::Fallback, Ok(sock)) == Ok::<
            MptcpSocket<T>,
            MptcpError,
        >(MptcpSocket::Tcp(sock)),
        fallback_result(Err(err), MptcpOpt::NoFallback, tcp) == Err::<MptcpSocket<T>, MptcpError>(
            err,
        ),
{
}

} // verus!
