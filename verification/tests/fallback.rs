use mptcp::fallback::{after_mptcp, after_tcp, FallbackStep};
use mptcp::{
    resolve_each_addr, with_fallback, MptcpError, MptcpOpt, MptcpSocket, SocketAddress,
};
use std::cell::Cell;

fn candidates() -> Result<Vec<SocketAddress>, MptcpError> {
    Ok(vec![SocketAddress::V4 { ip: 0x7f00_0001, port: 0 }])
}

#[test]
fn mptcp_success_is_tagged_mptcp_under_either_policy() {
    for opt in [MptcpOpt::Fallback, MptcpOpt::NoFallback] {
        let called = Cell::new(false);
        let result = with_fallback(Ok(4u8), opt, || {
            called.set(true);
            Ok(5u8)
        });
        assert!(matches!(result, Ok(MptcpSocket::Mptcp(4))));
        assert!(!called.get());
    }
}

#[test]
fn fallback_yields_tcp_when_mptcp_is_unavailable() {
    // A system without MPTCP refuses the socket; a plain TCP server listens.
    let mptcp: Result<&str, MptcpError> =
        resolve_each_addr(candidates(), |_| Err(MptcpError::Unsupported));
    let result = with_fallback(mptcp, MptcpOpt::Fallback, || Ok("tcp stream"));
    assert!(matches!(result, Ok(MptcpSocket::Tcp("tcp stream"))));
    assert!(!result.unwrap().is_mptcp());
}

#[test]
fn no_fallback_fails_with_the_mptcp_error() {
    let called = Cell::new(false);
    let mptcp: Result<&str, MptcpError> =
        resolve_each_addr(candidates(), |_| Err(MptcpError::Os(92)));
    let result = with_fallback(mptcp, MptcpOpt::NoFallback, || {
        called.set(true);
        Ok("tcp stream")
    });
    assert!(matches!(result, Err(MptcpError::Os(92))));
    assert!(!called.get());
}

#[test]
fn fallback_that_fails_too_reports_the_tcp_error() {
    let result: Result<MptcpSocket<u8>, MptcpError> =
        with_fallback(Err(MptcpError::Os(92)), MptcpOpt::Fallback, || Err(MptcpError::Os(111)));
    assert!(matches!(result, Err(MptcpError::Os(111))));
}

#[test]
fn steps_of_the_fallback_decision() {
    assert!(matches!(
        after_mptcp(Ok(1u8), MptcpOpt::NoFallback),
        FallbackStep::Done(Ok(MptcpSocket::Mptcp(1)))
    ));
    assert!(matches!(
        after_mptcp(Ok(1u8), MptcpOpt::Fallback),
        FallbackStep::Done(Ok(MptcpSocket::Mptcp(1)))
    ));
    assert!(matches!(
        after_mptcp::<u8>(Err(MptcpError::Os(3)), MptcpOpt::NoFallback),
        FallbackStep::Done(Err(MptcpError::Os(3)))
    ));
    assert!(matches!(
        after_mptcp::<u8>(Err(MptcpError::Os(3)), MptcpOpt::Fallback),
        FallbackStep::TryTcp
    ));
    assert!(matches!(after_tcp(Ok(2u8)), Ok(MptcpSocket::Tcp(2))));
    assert!(matches!(after_tcp::<u8>(Err(MptcpError::Other)), Err(MptcpError::Other)));
}
