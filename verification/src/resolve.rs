//! Walking the candidate addresses of a target.
//!
//! A target resolves to an ordered list of candidate addresses. They are
//! tried in that order, one after the other and never two at a time: the
//! first success ends the walk, and if every candidate fails the error of
//! the last one is the error of the walk. Which error wins is a choice, and
//! callers rely on it: it is the last, not the first.
//!
//! There are two ways to walk. `resolve_each_addr` takes the attempt as
//! a function and walks by itself. `AddrWalk` is for a caller whose attempt
//! cannot be handed over, because it has to be awaited: the walk names the
//! address to try, the caller tries it and reports the outcome.
use vstd::prelude::*;
use crate::addr::SocketAddress;
use crate::error::MptcpError;

verus! {

/// Whether `trace` can be the outcomes, in order, of a walk over
/// `candidates` addresses: it tries the candidates from the first on, goes
/// on only after a failure, and stops early only at a success.
pub open spec fn is_walk<T>(candidates: nat, trace: Seq<Result<T, MptcpError>>) -> bool {
    &&& trace.len() <= candidates
    &&& candidates > 0 ==> trace.len() > 0
    &&& forall|i: int| 0 <= i < trace.len() - 1 ==> (#[trigger] trace[i]) is Err
    &&& trace.len() < candidates ==> trace.last() is Ok
}

/// What a walk with the outcomes `trace` returns: the last outcome, which is
/// the first success or else the last failure; with nothing tried, the error
/// that says so.
pub open spec fn walk_result<T>(trace: Seq<Result<T, MptcpError>>) -> Result<T, MptcpError> {
    if trace.len() == 0 {
        Err(MptcpError::NoAddress)
    } else {
        trace.last()
    }
}

/// A walk over the candidates of one target that has a candidate out for
/// trial and waits for the outcome.
///
/// The value is used up by `advance`, so a walk that has ended cannot be
/// driven further.
pub struct AddrWalk<T> {
    addrs: Vec<SocketAddress>,
    tried: usize,
    trace: Ghost<Seq<Result<T, MptcpError>>>,
}

/// What the caller of a walk does next.
pub enum WalkStep<T> {
    /// Try this address and hand the outcome to `advance` of the walk.
    Try(SocketAddress, AddrWalk<T>),
    /// The walk is over, with this result.
    Done(Result<T, MptcpError>),
}

impl<T> AddrWalk<T> {
    #[verifier::type_invariant]
    spec fn inv(self) -> bool {
        &&& 0 < self.tried <= self.addrs.len()
        &&& self.trace@.len() == self.tried - 1
        &&& forall|i: int| 0 <= i < self.trace@.len() ==> (#[trigger] self.trace@[i]) is Err
    }

    /// The candidates of the walk, in the order of trial.
    pub closed spec fn candidates(self) -> Seq<SocketAddress> {
        self.addrs@
    }

    /// The outcomes the walk has been told so far, one for each candidate
    /// before the pending one.
    pub closed spec fn trace(self) -> Seq<Result<T, MptcpError>> {
        self.trace@
    }

    /// The candidate that is out for trial.
    pub open spec fn pending(self) -> SocketAddress {
        self.candidates()[self.trace().len() as int]
    }

    /// Begins a walk over `addrs`: the first candidate is to be tried, and
    /// with no candidate the walk is over at once with `NoAddress`.
    pub fn start(addrs: Vec<SocketAddress>) -> (step: WalkStep<T>)
        ensures
            addrs.len() == 0 ==> step == WalkStep::<T>::Done(Err(MptcpError::NoAddress)),
            addrs.len() > 0 ==> (step matches WalkStep::Try(addr, walk) && addr == addrs[0]
                && walk.candidates() == addrs@ && walk.trace() == Seq::<
                Result<T, MptcpError>,
            >::empty()),
    {
        if addrs.len() == 0 {
            WalkStep::Done(Err(MptcpError::NoAddress))
        } else {
            let first = addrs[0];
            WalkStep::Try(first, AddrWalk { addrs, tried: 1, trace: Ghost(Seq::empty()) })
        }
    }

    /// Takes the outcome of trying the pending candidate and says what comes
    /// next. A success ends the walk with that success. A failure moves on to
    /// the next candidate; after the last candidate it ends the walk with
    /// that failure.
    pub fn advance(self, outcome: Result<T, MptcpError>) -> (step: WalkStep<T>)
        ensures
            self.trace().len() < self.candidates().len(),
            forall|i: int| 0 <= i < self.trace().len() ==> (#[trigger] self.trace()[i]) is Err,
            match step {
                WalkStep::Try(addr, walk) => {
                    &&& outcome is Err
                    &&& self.trace().len() + 1 < self.candidates().len()
                    &&& walk.candidates() == self.candidates()
                    &&& walk.trace() == self.trace().push(outcome)
                    &&& addr == walk.pending()
                },
                WalkStep::Done(result) => {
                    &&& result == outcome
                    &&& outcome is Err ==> self.trace().len() + 1 == self.candidates().len()
                    &&& is_walk(self.candidates().len(), self.trace().push(outcome))
                    &&& result == walk_result(self.trace().push(outcome))
                },
            },
    {
        proof {
            use_type_invariant(&self);
        }
        match outcome {
            Ok(value) => WalkStep::Done(Ok(value)),
            Err(err) => {
                if self.tried < self.addrs.len() {
                    let next = self.addrs[self.tried];
                    let ghost trace = self.trace@.push(outcome);
                    WalkStep::Try(
                        next,
                        AddrWalk { addrs: self.addrs, tried: self.tried + 1, trace: Ghost(trace) },
                    )
                } else {
                    WalkStep::Done(Err(err))
                }
            },
        }
    }
}

/// Whether `trace` holds, for each candidate it covers, an outcome that `f`
/// can give for that candidate.
pub open spec fn is_trace_of<T, F: Fn(SocketAddress) -> Result<T, MptcpError>>(
    f: F,
    addrs: Seq<SocketAddress>,
    trace: Seq<Result<T, MptcpError>>,
) -> bool {
    &&& trace.len() <= addrs.len()
    &&& forall|i: int| 0 <= i < trace.len() ==> call_ensures(f, (addrs[i],), #[trigger] trace[i])
}

/// Whether a walk over `addrs` that tries each candidate with `f` can see the
/// outcomes `trace` and then return `result`.
pub open spec fn walk_gives<T, F: Fn(SocketAddress) -> Result<T, MptcpError>>(
    f: F,
    addrs: Seq<SocketAddress>,
    trace: Seq<Result<T, MptcpError>>,
    result: Result<T, MptcpError>,
) -> bool {
    &&& is_trace_of(f, addrs, trace)
    &&& is_walk(addrs.len(), trace)
    &&& result == walk_result(trace)
}

/// Tries `f` on each candidate address in turn and returns the first
/// success. If every candidate fails, the error is that of the last
/// candidate; if there is no candidate, it is `NoAddress`. A resolution that
/// itself failed is handed on unchanged, and nothing is tried.
pub fn resolve_each_addr<T, F>(resolved: Result<Vec<SocketAddress>, MptcpError>, f: F) -> (result:
    Result<T, MptcpError>) where F: Fn(SocketAddress) -> Result<T, MptcpError>
    requires
        resolved matches Ok(addrs) ==> forall|i: int|
            0 <= i < addrs.len() ==> call_requires(f, (#[trigger] addrs[i],)),
    ensures
        resolved matches Err(err) ==> result == Err::<T, MptcpError>(err),
        resolved matches Ok(addrs) ==> exists|trace: Seq<Result<T, MptcpError>>|
            walk_gives(f, addrs@, trace, result),
{
    let addrs = match resolved {
        Ok(addrs) => addrs,
        Err(err) => {
            return Err(err);
        },
    };
    let ghost candidates = addrs@;
    let mut step = AddrWalk::start(addrs);
    proof {
        if candidates.len() == 0 {
            assert(walk_gives(
                f,
                candidates,
                Seq::<Result<T, MptcpError>>::empty(),
                Err::<T, MptcpError>(MptcpError::NoAddress),
            ));
        }
    }
    loop
        invariant
            resolved matches Ok(given) && given@ == candidates,
            forall|i: int|
                0 <= i < candidates.len() ==> call_requires(f, (#[trigger] candidates[i],)),
            step matches WalkStep::Try(addr, walk) ==> {
                &&& walk.candidates() == candidates
                &&& walk.trace().len() < candidates.len()
                &&& addr == walk.pending()
                &&& is_trace_of(f, candidates, walk.trace())
            },
            step matches WalkStep::Done(done) ==> exists|trace: Seq<Result<T, MptcpError>>|
                walk_gives(f, candidates, trace, done),
        decreases
                match step {
                    WalkStep::Try(_, walk) => candidates.len() - walk.trace().len() + 1,
                    WalkStep::Done(_) => 0,
                },
    {
        match step {
            WalkStep::Done(done) => {
                return done;
            },
            WalkStep::Try(addr, walk) => {
                let outcome = f(addr);
                let ghost trace = walk.trace().push(outcome);
                proof {
                    assert(is_trace_of(f, candidates, trace));
                }
                step = walk.advance(outcome);
                assert(step matches WalkStep::Done(done) ==> walk_gives(
                    f,
                    candidates,
                    trace,
                    done,
                ));
            },
        }
    }
}

/// Whether `f`, asked about candidate `i` of `addrs`, can only answer
/// `outcomes[i]`.
pub open spec fn answers<T, F: Fn(SocketAddress) -> Result<T, MptcpError>>(
    f: F,
    addrs: Seq<SocketAddress>,
    outcomes: Seq<Result<T, MptcpError>>,
) -> bool {
    &&& outcomes.len() == addrs.len()
    &&& forall|i: int, r: Result<T, MptcpError>|
        0 <= i < addrs.len() && #[trigger] call_ensures(f, (addrs[i],), r) ==> r == outcomes[i]
}

/// Where at least one candidate succeeds, the walk returns the first such
/// success and tries no candidate after it: the last candidate tried is
/// a success, it is what the walk returns, and every candidate before it
/// failed.
pub proof fn first_success_wins<T, F: Fn(SocketAddress) -> Result<T, MptcpError>>(
    f: F,
    addrs: Seq<SocketAddress>,
    outcomes: Seq<Result<T, MptcpError>>,
    trace: Seq<Result<T, MptcpError>>,
    result: Result<T, MptcpError>,
)
    requires
        answers(f, addrs, outcomes),
        exists|k: int| 0 <= k < outcomes.len() && (#[trigger] outcomes[k]) is Ok,
        walk_gives(f, addrs, trace, result),
    ensures
        0 < trace.len() <= addrs.len(),
        result == outcomes[trace.len() - 1],
        result is Ok,
        forall|j: int| 0 <= j < trace.len() - 1 ==> (#[trigger] outcomes[j]) is Err,
{
    assert forall|i: int| 0 <= i < trace.len() implies #[trigger] trace[i] == outcomes[i] by {
        assert(call_ensures(f, (addrs[i],), trace[i]));
    }
    let k = choose|k: int| 0 <= k < outcomes.len() && (#[trigger] outcomes[k]) is Ok;
    if trace.len() == addrs.len() {
        if k < trace.len() - 1 {
            assert(trace[k] is Err);
        }
    }
    assert forall|j: int| 0 <= j < trace.len() - 1 implies (#[trigger] outcomes[j]) is Err by {
        assert(trace[j] is Err);
    }
}

/// Where every candidate fails, every candidate is tried and the walk
/// returns the error of the last one.
pub proof fn last_error_wins<T, F: Fn(SocketAddress) -> Result<T, MptcpError>>(
    f: F,
    addrs: Seq<SocketAddress>,
    outcomes: Seq<Result<T, MptcpError>>,
    trace: Seq<Result<T, MptcpError>>,
    result: Result<T, MptcpError>,
)
    requires
        addrs.len() > 0,
        answers(f, addrs, outcomes),
        forall|k: int| 0 <= k < outcomes.len() ==> (#[trigger] outcomes[k]) is Err,
        walk_gives(f, addrs, trace, result),
    ensures
        trace.len() == addrs.len(),
        result == outcomes.last(),
        result is Err,
{
    assert forall|i: int| 0 <= i < trace.len() implies #[trigger] trace[i] == outcomes[i] by {
        assert(call_ensures(f, (addrs[i],), trace[i]));
    }
    assert(trace.last() == outcomes[trace.len() - 1]);
}

/// With no candidate at all the walk fails with `NoAddress`, whatever `f`
/// is, and that error is none that the operating system reports for
/// a candidate.
pub proof fn empty_list_is_no_address<T, F: Fn(SocketAddress) -> Result<T, MptcpError>>(
    f: F,
    addrs: Seq<SocketAddress>,
    trace: Seq<Result<T, MptcpError>>,
    result: Result<T, MptcpError>,
)
    requires
        addrs.len() == 0,
        walk_gives(f, addrs, trace, result),
    ensures
        result == Err::<T, MptcpError>(MptcpError::NoAddress),
        forall|code: i32| result != Err::<T, MptcpError>(MptcpError::Os(code)),
{
}

} // verus!
