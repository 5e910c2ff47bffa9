use mptcp::{resolve_each_addr, AddrWalk, MptcpError, SocketAddress, WalkStep};
use std::cell::{Cell, RefCell};

const LOCALHOST: u32 = 0x7f00_0001;

fn v4(ip: u32, port: u16) -> SocketAddress {
    SocketAddress::V4 { ip, port }
}

/// Stands for the system resolver, for the targets these tests use: an
/// address written out resolves to itself, anything else is rejected with an
/// error that carries no operating-system code.
fn resolve(target: &str) -> Result<Vec<SocketAddress>, MptcpError> {
    match target {
        "127.0.0.1:80" => Ok(vec![v4(LOCALHOST, 80)]),
        _ => Err(MptcpError::from_parts(None, false)),
    }
}

/// Drives a walk the way a caller does that cannot hand over a closure:
/// step by step, trying each address it is given.
fn drive<T>(
    addrs: Vec<SocketAddress>,
    mut attempt: impl FnMut(SocketAddress) -> Result<T, MptcpError>,
) -> Result<T, MptcpError> {
    let mut step = AddrWalk::start(addrs);
    loop {
        match step {
            WalkStep::Try(addr, walk) => step = walk.advance(attempt(addr)),
            WalkStep::Done(result) => return result,
        }
    }
}

#[test]
fn std_test_resolve_each_addr() {
    let addr = "127.0.0.1:80";
    let result = resolve_each_addr(resolve(addr), |addr| {
        assert_eq!(addr.port(), 80);
        assert_eq!(addr, v4(u32::from_be_bytes([127, 0, 0, 1]), 80));
        Ok(())
    });
    assert!(result.is_ok());
}

#[test]
fn std_test_resolve_each_addr_error() {
    let addr = "thisisanerror";
    let result = resolve_each_addr(resolve(addr), |_| Ok(()));
    assert!(result.is_err());
}

#[test]
fn async_std_test_resolve_each_addr() {
    let addr = "127.0.0.1:80";
    let result = drive(resolve(addr).unwrap(), |addr| {
        assert_eq!(addr.port(), 80);
        assert_eq!(addr, v4(u32::from_be_bytes([127, 0, 0, 1]), 80));
        Ok(())
    });
    assert!(result.is_ok());
}

#[test]
fn async_std_test_resolve_each_addr_error() {
    let addr = "thisisanerror";
    let result = match resolve(addr) {
        Ok(addrs) => drive(addrs, |_| Ok(())),
        Err(err) => Err(err),
    };
    assert!(result.is_err());
}

#[test]
fn resolution_error_is_handed_on_and_nothing_is_tried() {
    let calls = Cell::new(0u32);
    let result: Result<u8, MptcpError> = resolve_each_addr(Err(MptcpError::Os(11)), |_| {
        calls.set(calls.get() + 1);
        Ok(1)
    });
    assert_eq!(result, Err(MptcpError::Os(11)));
    assert_eq!(calls.get(), 0);
}

#[test]
fn first_success_is_returned_and_later_candidates_are_not_tried() {
    let addrs = vec![v4(1, 10), v4(2, 20), v4(3, 30), v4(4, 40)];
    let tried = RefCell::new(Vec::new());
    let result = resolve_each_addr(Ok(addrs), |addr| {
        tried.borrow_mut().push(addr);
        match addr.port() {
            10 => Err(MptcpError::Os(111)),
            20 => Ok("second"),
            30 => Ok("third"),
            _ => Err(MptcpError::Os(113)),
        }
    });
    assert_eq!(result, Ok("second"));
    assert_eq!(*tried.borrow(), vec![v4(1, 10), v4(2, 20)]);
}

#[test]
fn success_on_the_first_candidate_tries_one() {
    let calls = Cell::new(0u32);
    let result = resolve_each_addr(Ok(vec![v4(1, 1), v4(2, 2)]), |addr| {
        calls.set(calls.get() + 1);
        Ok::<SocketAddress, MptcpError>(addr)
    });
    assert_eq!(result, Ok(v4(1, 1)));
    assert_eq!(calls.get(), 1);
}

#[test]
fn last_error_is_returned_when_every_candidate_fails() {
    let addrs = vec![v4(1, 10), v4(2, 20), v4(3, 30)];
    let tried = RefCell::new(Vec::new());
    let result: Result<(), MptcpError> = resolve_each_addr(Ok(addrs.clone()), |addr| {
        tried.borrow_mut().push(addr);
        Err(MptcpError::Os(i32::from(addr.port())))
    });
    assert_eq!(result, Err(MptcpError::Os(30)));
    assert_eq!(*tried.borrow(), addrs);
}

#[test]
fn last_error_wins_even_if_it_is_not_an_os_error() {
    let result: Result<(), MptcpError> = resolve_each_addr(Ok(vec![v4(1, 1), v4(2, 2)]), |addr| {
        if addr.port() == 1 {
            Err(MptcpError::Os(97))
        } else {
            Err(MptcpError::Unsupported)
        }
    });
    assert_eq!(result, Err(MptcpError::Unsupported));
}

#[test]
fn empty_candidate_list_is_no_address() {
    let calls = Cell::new(0u32);
    let result: Result<u8, MptcpError> = resolve_each_addr(Ok(Vec::new()), |_| {
        calls.set(calls.get() + 1);
        Ok(1)
    });
    assert_eq!(result, Err(MptcpError::NoAddress));
    assert_eq!(calls.get(), 0);
    assert_eq!(MptcpError::NoAddress.raw_os_error(), None);
    assert_ne!(result, Err(MptcpError::Os(0)));
}

#[test]
fn walk_starts_with_the_first_candidate() {
    match AddrWalk::<u8>::start(vec![v4(9, 9), v4(8, 8)]) {
        WalkStep::Try(addr, _) => assert_eq!(addr, v4(9, 9)),
        WalkStep::Done(_) => panic!("a walk with candidates must try one"),
    }
    match AddrWalk::<u8>::start(Vec::new()) {
        WalkStep::Done(result) => assert_eq!(result, Err(MptcpError::NoAddress)),
        WalkStep::Try(..) => panic!("a walk without candidates has nothing to try"),
    }
}

#[test]
fn walk_moves_on_after_a_failure_and_ends_on_a_success() {
    let walk = match AddrWalk::<u8>::start(vec![v4(1, 1), v4(2, 2), v4(3, 3)]) {
        WalkStep::Try(_, walk) => walk,
        WalkStep::Done(_) => unreachable!(),
    };
    let walk = match walk.advance(Err(MptcpError::Os(1))) {
        WalkStep::Try(addr, walk) => {
            assert_eq!(addr, v4(2, 2));
            walk
        }
        WalkStep::Done(_) => panic!("two candidates are left"),
    };
    match walk.advance(Ok(5)) {
        WalkStep::Done(result) => assert_eq!(result, Ok(5)),
        WalkStep::Try(..) => panic!("a success ends the walk"),
    }
}

#[test]
fn walk_ends_with_the_failure_of_the_last_candidate() {
    let walk = match AddrWalk::<u8>::start(vec![v4(1, 1)]) {
        WalkStep::Try(_, walk) => walk,
        WalkStep::Done(_) => unreachable!(),
    };
    match walk.advance(Err(MptcpError::Os(104))) {
        WalkStep::Done(result) => assert_eq!(result, Err(MptcpError::Os(104))),
        WalkStep::Try(..) => panic!("no candidate is left"),
    }
}

#[test]
fn driven_walk_agrees_with_resolve_each_addr() {
    let addrs = vec![v4(1, 10), v4(2, 20), v4(3, 30)];
    let answer = |addr: SocketAddress| {
        if addr.port() == 30 {
            Ok(addr.port())
        } else {
            Err(MptcpError::Os(i32::from(addr.port())))
        }
    };
    assert_eq!(drive(addrs.clone(), answer), resolve_each_addr(Ok(addrs), answer));
    assert_eq!(drive(Vec::new(), answer), resolve_each_addr(Ok(Vec::new()), answer));
}
