//! The handle that a connect or a bind yields, tagged with the transport
//! that produced it.
use vstd::prelude::*;

verus! {

/// A socket handle together with the transport it was opened with.
///
/// The tag is set when the value is built and never changes: no method of
/// this type turns one variant into the other.
#[derive(Debug, Clone)]
pub enum MptcpSocket<T> {
    /// The handle was opened as a Multipath TCP socket.
    Mptcp(T),
    /// The handle was opened as a plain TCP socket.
    Tcp(T),
}

impl<T> MptcpSocket<T> {
    /// The wrapped handle, whatever the tag.
    pub open spec fn handle(self) -> T {
        match self {
            MptcpSocket::Mptcp(sock) => sock,
            MptcpSocket::Tcp(sock) => sock,
        }
    }

    /// Whether the tag says Multipath TCP.
    pub open spec fn spec_is_mptcp(&self) -> bool {
        *self is Mptcp
    }

    /// Whether the handle was opened as a Multipath TCP socket.
    #[verifier::when_used_as_spec(spec_is_mptcp)]
    pub fn is_mptcp(&self) -> (b: bool)
        ensures
            b == (*self is Mptcp),
    {
        match self {
            MptcpSocket::Mptcp(_) => true,
            MptcpSocket::Tcp(_) => false,
        }
    }

    /// Drops the tag and gives back the handle the value was built with.
    pub fn into_socket(self) -> (sock: T)
        ensures
            sock == self.handle(),
            self matches MptcpSocket::Mptcp(inner) ==> sock == inner,
            self matches MptcpSocket::Tcp(inner) ==> sock == inner,
    {
        match self {
            MptcpSocket::Mptcp(sock) => sock,
            MptcpSocket::Tcp(sock) => sock,
        }
    }
}

impl<T> core::ops::Deref for MptcpSocket<T> {
    type Target = T;

    /// Read access to the handle; the tag plays no part.
    fn deref(&self) -> (sock: &T)
        ensures
            *sock == self.handle(),
    {
        match self {
            MptcpSocket::Mptcp(sock) => sock,
            MptcpSocket::Tcp(sock) => sock,
        }
    }
}

impl<T> core::ops::DerefMut for MptcpSocket<T> {
    /// Write access to the handle. Whatever is written through the
    /// reference, the tag stays as it was.
    fn deref_mut(&mut self) -> (sock: &mut T)
        ensures
            *sock == old(self).handle(),
            final(self).handle() == *final(sock),
            final(self).spec_is_mptcp() == old(self).spec_is_mptcp(),
    {
        match self {
            MptcpSocket::Mptcp(sock) => sock,
            MptcpSocket::Tcp(sock) => sock,
        }
    }
}

} // verus!
