//! The error kinds of the crate.
use vstd::prelude::*;

verus! {

/// Why an operation of this crate failed.
///
/// An operating-system failure keeps the code the system reported, so that a
/// caller can hand it on unchanged.
#[derive(Debug, Clone, Copy, PartialEq, Eq, Structural)]
pub enum MptcpError {
    /// The platform, or the socket domain, has no such operation.
    Unsupported,
    /// The input named no address at all, so nothing could be tried.
    NoAddress,
    /// The operating system refused, with this error code.
    Os(i32),
    /// A failure that carries no operating-system code, such as an input
    /// that the resolver rejected.
    Other,
}

impl MptcpError {
    /// Builds the error that stands for a failure reported from outside the
    /// crate, from the two things such a failure can say about itself: the
    /// operating-system code, if it has one, and whether it means that the
    /// operation is unsupported.
    ///
    /// A code wins over everything else; `NoAddress` is never produced here,
    /// it belongs to the crate's own walk over the candidates.
    pub fn from_parts(code: Option<i32>, unsupported: bool) -> (err: MptcpError)
        ensures
            err == Self::spec_from_parts(code, unsupported),
            err != MptcpError::NoAddress,
    {
        match code {
            Some(c) => MptcpError::Os(c),
            None => if unsupported {
                MptcpError::Unsupported
            } else {
                MptcpError::Other
            },
        }
    }

    /// What `from_parts` builds.
    pub open spec fn spec_from_parts(code: Option<i32>, unsupported: bool) -> MptcpError {
        match code {
            Some(c) => MptcpError::Os(c),
            None => if unsupported {
                MptcpError::Unsupported
            } else {
                MptcpError::Other
            },
        }
    }

    /// The operating-system code of the error, if it has one.
    pub open spec fn spec_raw_os_error(&self) -> Option<i32> {
        match *self {
            MptcpError::Os(code) => Some(code),
            _ => None,
        }
    }

    /// The operating-system code of the error, if it has one.
    #[verifier::when_used_as_spec(spec_raw_os_error)]
    pub fn raw_os_error(&self) -> (code: Option<i32>)
        ensures
            code == self.spec_raw_os_error(),
    {
        match *self {
            MptcpError::Os(code) => Some(code),
            _ => None,
        }
    }

    /// A short description of the error, fit for a message.
    pub fn message(&self) -> (text: &'static str)
        ensures
            text@ == Self::spec_message(*self),
    {
        match *self {
            MptcpError::Unsupported => "unsupported",
            MptcpError::NoAddress => "could not resolve to any address",
            MptcpError::Os(_) => "operating system error",
            MptcpError::Other => "other error",
        }
    }

    /// The text that `message` returns.
    pub open spec fn spec_message(err: MptcpError) -> Seq<char> {
        match err {
            MptcpError::Unsupported => "unsupported"@,
            MptcpError::NoAddress => "could not resolve to any address"@,
            MptcpError::Os(_) => "operating system error"@,
            MptcpError::Other => "other error"@,
        }
    }
}

} // verus!
