//! Opening a Multipath TCP socket, platform by platform.
//!
//! Nothing here touches the operating system. A builder is told what the
//! socket is for and answers with a plan: how to create the socket, and the
//! calls to make on it afterwards, in order. To run a plan the caller lends
//! it the system calls, as two functions: one that creates a socket and one
//! that makes a call on it. The plan decides which call comes when, what
//! a failure means, and when to stop.
//!
//! - Linux: a stream socket of the target's IP domain with MPTCP as its
//!   protocol; an ordinary connect; bind, then listen.
//! - Darwin: a stream socket of the multipath domain with no protocol
//!   named; the multi-destination connect; no bind at all.
//! - Elsewhere: nothing. No builder can be made, so no plan either.
use vstd::prelude::*;
use crate::addr::{Domain, SocketAddress};
use crate::error::MptcpError;
use crate::platform::{IPPROTO_MPTCP, LISTEN_BACKLOG, Platform};

verus! {

/// One call to the operating system on a socket that is being set up.
#[derive(Debug, Clone, Copy, PartialEq, Eq, Structural)]
pub enum SocketCall {
    /// Switch the socket to non-blocking mode.
    SetNonblocking,
    /// Connect the socket to this address with the ordinary connect call.
    Connect(SocketAddress),
    /// Connect the socket with Darwin's multi-destination connect call, with
    /// this address as its only destination and any association.
    ConnectX(SocketAddress),
    /// Bind the socket to this address.
    Bind(SocketAddress),
    /// Start listening, with this backlog.
    Listen(i32),
}

/// Whether `call` starts a connection.
pub open spec fn is_connect(call: SocketCall) -> bool {
    call is Connect || call is ConnectX
}

/// Whether the failure `err` of `call` on `platform` counts as a success all
/// the same. That is so only for a call that starts a connection, when the
/// system says that the connection is under way: on a non-blocking socket
/// the handshake finishes later. On Linux a failure that carries no
/// operating-system code is let pass as well; only a code other than "in
/// progress" stops the plan there.
pub open spec fn tolerated(platform: Platform, call: SocketCall, err: MptcpError) -> bool {
    is_connect(call) && match platform {
        Platform::Linux => !(err is Os) || err.spec_raw_os_error()
            == platform.spec_in_progress_code(),
        Platform::Darwin => err.spec_raw_os_error() == platform.spec_in_progress_code(),
        Platform::Other => false,
    }
}

/// What the outcome of `call` means for the plan it belongs to.
pub open spec fn spec_verdict(
    platform: Platform,
    call: SocketCall,
    outcome: Result<(), MptcpError>,
) -> Result<(), MptcpError> {
    match outcome {
        Ok(_) => Ok(()),
        Err(err) => if tolerated(platform, call, err) {
            Ok(())
        } else {
            Err(err)
        },
    }
}

/// Judges the outcome of one call: a success stays a success, a connect that
/// is in progress becomes one, and every other failure is handed on with the
/// error it came with.
#[verifier::when_used_as_spec(spec_verdict)]
pub fn verdict(platform: Platform, call: SocketCall, outcome: Result<(), MptcpError>) -> (result:
    Result<(), MptcpError>)
    ensures
        result == spec_verdict(platform, call, outcome),
{
    let err = match outcome {
        Ok(_) => {
            return Ok(());
        },
        Err(err) => err,
    };
    let connecting = match call {
        SocketCall::Connect(_) => true,
        SocketCall::ConnectX(_) => true,
        _ => false,
    };
    if !connecting {
        return Err(err);
    }
    let in_progress = match (err.raw_os_error(), platform.in_progress_code()) {
        (Some(code), Some(expected)) => code == expected,
        _ => false,
    };
    let pass = match platform {
        Platform::Linux => in_progress || err.raw_os_error().is_none(),
        Platform::Darwin => in_progress,
        Platform::Other => false,
    };
    if pass {
        Ok(())
    } else {
        Err(err)
    }
}

/// A verdict neither drops nor changes a failure that the operating system
/// reports: the error keeps its code. The one exception is "in progress" on
/// a call that starts a connection, which is never handed on.
pub proof fn only_in_progress_is_forgiven(platform: Platform, call: SocketCall, code: i32)
    ensures
        spec_verdict(platform, call, Err(MptcpError::Os(code))) == if is_connect(call) && Some(code)
            == platform.spec_in_progress_code() {
            Ok::<(), MptcpError>(())
        } else {
            Err::<(), MptcpError>(MptcpError::Os(code))
        },
{
}

/// The domain in which `platform` creates its Multipath TCP sockets, given
/// the IP domain of the target.
pub open spec fn mptcp_domain(platform: Platform, target: Domain) -> Domain {
    match platform {
        Platform::Darwin => Domain::Multipath,
        _ => target,
    }
}

/// The protocol with which `platform` creates its Multipath TCP sockets:
/// Linux names MPTCP as the protocol, Darwin has it in the domain and names
/// none.
pub open spec fn mptcp_protocol(platform: Platform) -> Option<i32> {
    match platform {
        Platform::Linux => Some(IPPROTO_MPTCP),
        _ => None,
    }
}

/// The calls with which a plan of `builder` begins: the switch to
/// non-blocking mode if that was asked for, and else none.
pub open spec fn opening_calls(builder: MptcpSocketBuilder) -> Seq<SocketCall> {
    if builder.nonblocking() {
        seq![SocketCall::SetNonblocking]
    } else {
        seq![]
    }
}

/// The call with which `platform` connects a socket to `addr`.
pub open spec fn connect_call(platform: Platform, addr: SocketAddress) -> SocketCall {
    match platform {
        Platform::Darwin => SocketCall::ConnectX(addr),
        _ => SocketCall::Connect(addr),
    }
}

/// A Multipath TCP socket in the making: the platform it is for, the domain
/// it will be created in, and whether it will be non-blocking.
///
/// A builder exists only for a platform that has Multipath TCP. Each step
/// uses the builder up, and the last step turns it into a plan.
#[derive(Debug)]
pub struct MptcpSocketBuilder {
    platform: Platform,
    domain: Domain,
    nonblocking: bool,
}

/// How to set one socket up: the domain and the protocol to create it with,
/// and the calls to make on it then, in order.
#[derive(Debug)]
pub struct SocketPlan {
    platform: Platform,
    domain: Domain,
    protocol: Option<i32>,
    calls: Vec<SocketCall>,
}

impl MptcpSocketBuilder {
    #[verifier::type_invariant]
    spec fn inv(self) -> bool {
        &&& self.platform != Platform::Other
        &&& self.domain == Domain::Multipath <==> self.platform == Platform::Darwin
    }

    /// The platform the socket is built for.
    pub closed spec fn platform(self) -> Platform {
        self.platform
    }

    /// The domain the socket will be created in.
    pub closed spec fn domain(self) -> Domain {
        self.domain
    }

    /// Whether the socket will be switched to non-blocking mode.
    pub closed spec fn nonblocking(self) -> bool {
        self.nonblocking
    }

    fn new(platform: Platform, target: Domain) -> (result: Result<Self, MptcpError>)
        requires
            target != Domain::Multipath,
        ensures
            platform == Platform::Other ==> result == Err::<Self, MptcpError>(
                MptcpError::Unsupported,
            ),
            platform != Platform::Other ==> (result matches Ok(builder) && builder.platform()
                == platform && builder.domain() == mptcp_domain(platform, target)
                && !builder.nonblocking()),
    {
        match platform {
            Platform::Linux => Ok(MptcpSocketBuilder { platform, domain: target, nonblocking: false }),
            Platform::Darwin => Ok(
                MptcpSocketBuilder { platform, domain: Domain::Multipath, nonblocking: false },
            ),
            Platform::Other => Err(MptcpError::Unsupported),
        }
    }

    /// A builder for a socket that will talk to IPv4 addresses. Fails with
    /// `Unsupported` on a platform without Multipath TCP, and only there.
    pub fn new_v4(platform: Platform) -> (result: Result<Self, MptcpError>)
        ensures
            platform == Platform::Other ==> result == Err::<Self, MptcpError>(
                MptcpError::Unsupported,
            ),
            platform != Platform::Other ==> (result matches Ok(builder) && builder.platform()
                == platform && builder.domain() == mptcp_domain(platform, Domain::Ipv4)
                && !builder.nonblocking()),
    {
        Self::new(platform, Domain::Ipv4)
    }

    /// A builder for a socket that will talk to IPv6 addresses. Fails with
    /// `Unsupported` on a platform without Multipath TCP, and only there.
    pub fn new_v6(platform: Platform) -> (result: Result<Self, MptcpError>)
        ensures
            platform == Platform::Other ==> result == Err::<Self, MptcpError>(
                MptcpError::Unsupported,
            ),
            platform != Platform::Other ==> (result matches Ok(builder) && builder.platform()
                == platform && builder.domain() == mptcp_domain(platform, Domain::Ipv6)
                && !builder.nonblocking()),
    {
        Self::new(platform, Domain::Ipv6)
    }

    /// A builder for a socket that will talk to `addr`: on Linux its domain
    /// is that of the address, on Darwin it is the multipath domain whatever
    /// the address. Fails with `Unsupported` on a platform without Multipath
    /// TCP, and only there.
    pub fn new_for_addr(platform: Platform, addr: SocketAddress) -> (result: Result<
        Self,
        MptcpError,
    >)
        ensures
            platform == Platform::Other ==> result == Err::<Self, MptcpError>(
                MptcpError::Unsupported,
            ),
            platform != Platform::Other ==> (result matches Ok(builder) && builder.platform()
                == platform && builder.domain() == mptcp_domain(
                platform,
                Domain::spec_for_address(addr),
            ) && !builder.nonblocking()),
    {
        Self::new(platform, Domain::for_address(addr))
    }

    /// Asks for a non-blocking socket: the plan will switch the socket over
    /// right after creating it. Nothing else about the builder changes.
    pub fn set_nonblocking(self) -> (builder: Self)
        ensures
            builder.nonblocking(),
            builder.platform() == self.platform(),
            builder.domain() == self.domain(),
    {
        proof {
            use_type_invariant(&self);
        }
        MptcpSocketBuilder { platform: self.platform, domain: self.domain, nonblocking: true }
    }

    fn plan(self, then: Vec<SocketCall>) -> (plan: SocketPlan)
        ensures
            self.platform() != Platform::Other,
            plan.platform() == self.platform(),
            plan.domain() == self.domain(),
            plan.protocol() == mptcp_protocol(self.platform()),
            plan.calls() == opening_calls(self) + then@,
    {
        proof {
            use_type_invariant(&self);
        }
        let protocol = match self.platform {
            Platform::Linux => Some(IPPROTO_MPTCP),
            _ => None,
        };
        let mut calls = Vec::new();
        if self.nonblocking {
            calls.push(SocketCall::SetNonblocking);
        }
        let mut then = then;
        let ghost rest = then@;
        calls.append(&mut then);
        assert(calls@ =~= opening_calls(self) + rest);
        SocketPlan { platform: self.platform, domain: self.domain, protocol, calls }
    }

    /// The plan that opens the socket and leaves it unconnected and unbound,
    /// for a caller that connects or binds by other means.
    pub fn open(self) -> (plan: SocketPlan)
        ensures
            plan.platform() == self.platform(),
            plan.domain() == self.domain(),
            plan.protocol() == mptcp_protocol(self.platform()),
            plan.calls() == opening_calls(self),
    {
        self.plan(Vec::new())
    }

    /// The plan that opens the socket and connects it to `addr`: with the
    /// ordinary connect call on Linux, with the multi-destination call on
    /// Darwin.
    pub fn connect(self, addr: SocketAddress) -> (plan: SocketPlan)
        ensures
            plan.platform() == self.platform(),
            plan.domain() == self.domain(),
            plan.protocol() == mptcp_protocol(self.platform()),
            plan.calls() == opening_calls(self).push(connect_call(self.platform(), addr)),
    {
        let call = match self.platform {
            Platform::Darwin => SocketCall::ConnectX(addr),
            _ => SocketCall::Connect(addr),
        };
        let mut then = Vec::new();
        then.push(call);
        self.plan(then)
    }

    /// The plan that opens the socket, binds it to `addr` and starts
    /// listening with the system's default backlog. Darwin's multipath
    /// domain has no bind: there the result is `Unsupported`, whatever the
    /// address, and no plan is made.
    pub fn bind(self, addr: SocketAddress) -> (result: Result<SocketPlan, MptcpError>)
        ensures
            self.platform() == Platform::Darwin ==> result == Err::<SocketPlan, MptcpError>(
                MptcpError::Unsupported,
            ),
            self.platform() != Platform::Darwin ==> (result matches Ok(plan) && plan.platform()
                == self.platform() && plan.domain() == self.domain() && plan.protocol()
                == mptcp_protocol(self.platform()) && plan.calls() == opening_calls(self).push(
                SocketCall::Bind(addr),
            ).push(SocketCall::Listen(LISTEN_BACKLOG))),
    {
        match self.platform {
            Platform::Darwin => Err(MptcpError::Unsupported),
            _ => {
                let mut then = Vec::new();
                then.push(SocketCall::Bind(addr));
                then.push(SocketCall::Listen(LISTEN_BACKLOG));
                Ok(self.plan(then))
            },
        }
    }
}

/// Whether `trace` can be the outcomes, in order, of the calls that a run of
/// `calls` on `platform` makes: it makes them from the first on, goes on
/// only after a call whose verdict is a success, and stops early only at
/// a call whose verdict is a failure.
pub open spec fn is_run(
    platform: Platform,
    calls: Seq<SocketCall>,
    trace: Seq<Result<(), MptcpError>>,
) -> bool {
    &&& trace.len() <= calls.len()
    &&& calls.len() > 0 ==> trace.len() > 0
    &&& forall|i: int|
        0 <= i < trace.len() - 1 ==> spec_verdict(platform, calls[i], #[trigger] trace[i]) is Ok
    &&& trace.len() < calls.len() ==> spec_verdict(
        platform,
        calls[trace.len() - 1],
        trace.last(),
    ) is Err
}

/// What a run gives back once it has created `socket` and seen the
/// outcomes `trace` of its calls: the socket, unless the verdict on the last
/// call made is a failure, and then the error of that verdict.
pub open spec fn run_result<H>(
    platform: Platform,
    calls: Seq<SocketCall>,
    socket: H,
    trace: Seq<Result<(), MptcpError>>,
) -> Result<H, MptcpError> {
    if trace.len() == 0 {
        Ok(socket)
    } else {
        match spec_verdict(platform, calls[trace.len() - 1], trace.last()) {
            Ok(_) => Ok(socket),
            Err(err) => Err(err),
        }
    }
}

/// Whether a run of `plan` that creates its socket with `create` and makes
/// its calls with `perform` can see `created` come back from the creation,
/// see the outcomes `trace` of the calls it makes, and return `result`.
/// A creation that fails ends the run with its error before any call.
pub open spec fn run_gives<H, C, P>(
    plan: SocketPlan,
    create: C,
    perform: P,
    created: Result<H, MptcpError>,
    trace: Seq<Result<(), MptcpError>>,
    result: Result<H, MptcpError>,
) -> bool where
    C: FnOnce(Domain, Option<i32>) -> Result<H, MptcpError>,
    P: Fn(&H, SocketCall) -> Result<(), MptcpError>,
 {
    &&& call_ensures(create, (plan.domain(), plan.protocol()), created)
    &&& match created {
        Err(err) => trace.len() == 0 && result == Err::<H, MptcpError>(err),
        Ok(socket) => {
            &&& is_run(plan.platform(), plan.calls(), trace)
            &&& forall|i: int|
                0 <= i < trace.len() ==> call_ensures(
                    perform,
                    (&socket, plan.calls()[i]),
                    #[trigger] trace[i],
                )
            &&& result == run_result(plan.platform(), plan.calls(), socket, trace)
        },
    }
}

impl SocketPlan {
    /// The platform the plan is for.
    pub closed spec fn platform(self) -> Platform {
        self.platform
    }

    /// The domain to create the socket in.
    pub closed spec fn domain(self) -> Domain {
        self.domain
    }

    /// The protocol to create the socket with; `None` leaves it to the
    /// domain.
    pub closed spec fn protocol(self) -> Option<i32> {
        self.protocol
    }

    /// The calls to make on the socket once it is created, in order.
    pub closed spec fn calls(self) -> Seq<SocketCall> {
        self.calls@
    }

    /// The domain and the protocol to create the socket with.
    pub fn creation(&self) -> (how: (Domain, Option<i32>))
        ensures
            how == (self.domain(), self.protocol()),
    {
        (self.domain, self.protocol)
    }

    /// The calls to make on the socket once it is created, in order.
    pub fn to_calls(&self) -> (calls: Vec<SocketCall>)
        ensures
            calls@ == self.calls(),
    {
        self.calls.clone()
    }

    /// Runs the plan. `create` is asked for a stream socket of the plan's
    /// domain and protocol. `perform` is then asked to make each call of the
    /// plan on that socket, in order, until the verdict on one of them is
    /// a failure. A run that gets through hands the socket to the caller;
    /// a run that fails gives the socket up and returns the error of the
    /// call that failed.
    pub fn run<H, C, P>(self, create: C, perform: P) -> (result: Result<H, MptcpError>) where
        C: FnOnce(Domain, Option<i32>) -> Result<H, MptcpError>,
        P: Fn(&H, SocketCall) -> Result<(), MptcpError>,

        requires
            call_requires(create, (self.domain(), self.protocol())),
            forall|socket: H, i: int|
                0 <= i < self.calls().len() ==> #[trigger] call_requires(
                    perform,
                    (&socket, self.calls()[i]),
                ),
        ensures
            exists|created: Result<H, MptcpError>, trace: Seq<Result<(), MptcpError>>|
                run_gives(self, create, perform, created, trace, result),
    {
        let created = create(self.domain, self.protocol);
        let ghost mut trace = Seq::<Result<(), MptcpError>>::empty();
        let socket = match created {
            Ok(socket) => socket,
            Err(err) => {
                assert(run_gives(self, create, perform, created, trace, Err::<H, MptcpError>(err)));
                return Err(err);
            },
        };
        let mut i: usize = 0;
        while i < self.calls.len()
            invariant
                0 <= i <= self.calls.len(),
                self.calls@ == self.calls(),
                self.platform == self.platform(),
                created == Ok::<H, MptcpError>(socket),
                call_ensures(create, (self.domain(), self.protocol()), created),
                forall|socket: H, i: int|
                    0 <= i < self.calls().len() ==> #[trigger] call_requires(
                        perform,
                        (&socket, self.calls()[i]),
                    ),
                trace.len() == i,
                forall|k: int|
                    0 <= k < trace.len() ==> spec_verdict(
                        self.platform(),
                        self.calls()[k],
                        #[trigger] trace[k],
                    ) is Ok,
                forall|k: int|
                    0 <= k < trace.len() ==> call_ensures(
                        perform,
                        (&socket, self.calls()[k]),
                        #[trigger] trace[k],
                    ),
            decreases self.calls.len() - i,
        {
            let call = self.calls[i];
            let outcome = perform(&socket, call);
            proof {
                trace = trace.push(outcome);
            }
            match verdict(self.platform, call, outcome) {
                Ok(_) => {},
                Err(err) => {
                    assert(run_gives(
                        self,
                        create,
                        perform,
                        created,
                        trace,
                        Err::<H, MptcpError>(err),
                    ));
                    return Err(err);
                },
            }
            i += 1;
        }
        assert(run_gives(self, create, perform, created, trace, Ok::<H, MptcpError>(socket)));
        Ok(socket)
    }
}

} // verus!
