//! The raw socket handle.

use vstd::prelude::*;
use vstd::std_specs::convert::FromSpecImpl;
use crate::error::{outcome_at, spec_outcome_at, RawSocketError, Stage};
use crate::factory::{bind_socket, is_construction_stage};
use crate::os::inet_transport;
use crate::resolver::{first_candidate, resolve};

verus! {

/// The receive-buffer size of a handle until another is set.
pub const DEFAULT_BUFFER_SIZE: usize = 8192;

/// A non-blocking socket of any address family, type and protocol, bound to a
/// local address, through which datagrams are sent to arbitrary destinations.
///
/// The handle is the only owner of its socket: the socket is closed when the
/// handle is dropped, and no operation replaces it, so the classification it
/// was created with stays what it was.
///
/// The handle decides; it does not wait. The engine that carries out a
/// transfer and suspends the task until it is done lives outside this crate:
/// [`RawSocket::send_to`] says what to hand it, and
/// [`RawSocket::send_outcome`] what its report means.
#[derive(Debug)]
pub struct RawSocket {
    socket: socket2::Socket,
    rx_buf_size: usize,
}

/// A send that was decided and is ready for the engine: `payload` goes to
/// `destination` through `socket`.
pub struct Datagram<'a> {
    /// The socket of the handle that the datagram leaves through.
    pub socket: &'a socket2::Socket,
    /// The bytes to send, exactly as the caller gave them.
    pub payload: &'a [u8],
    /// Where to send them, in the address form of the transport.
    pub destination: nix::sys::socket::SockAddr,
}

impl RawSocket {
    /// The operating-system socket that the handle owns.
    pub closed spec fn socket(&self) -> socket2::Socket {
        self.socket
    }

    /// The size, in bytes, of the buffer that receives are given.
    pub closed spec fn rx_buf_size(&self) -> usize {
        self.rx_buf_size
    }

    /// The handle as it is once its receive-buffer size is set to
    /// `buffer_size`.
    pub closed spec fn with_buffer_size(self, buffer_size: usize) -> RawSocket {
        RawSocket { socket: self.socket, rx_buf_size: buffer_size }
    }

    /// The handle that adopts `socket` as it is.
    pub closed spec fn adopted(socket: socket2::Socket) -> RawSocket {
        RawSocket { socket, rx_buf_size: DEFAULT_BUFFER_SIZE }
    }

    /// Reading the receive-buffer size after setting it gives the size that
    /// was set, whatever it is; the last size set is the one that counts; and
    /// setting it leaves the socket, and with it the send path, as it was.
    pub proof fn lemma_buffer_size_set_then_get(self, first: usize, size: usize)
        ensures
            self.with_buffer_size(size).rx_buf_size() == size,
            self.with_buffer_size(first).with_buffer_size(size) == self.with_buffer_size(size),
            self.with_buffer_size(size).socket() == self.socket(),
    {
    }

    /// An adopted handle owns the socket it was given and starts with the
    /// default receive-buffer size.
    pub proof fn lemma_adopted_handle(socket: socket2::Socket)
        ensures
            RawSocket::adopted(socket).socket() == socket,
            RawSocket::adopted(socket).rx_buf_size() == DEFAULT_BUFFER_SIZE,
    {
    }

    /// A handle is no more than its socket and its receive-buffer size: two
    /// handles that agree on both are the same handle, however each was made.
    /// So a handle that adopts the socket of a constructed one, with the
    /// buffer size of that one, decides every send as that one does.
    pub proof fn lemma_same_socket_same_handle(self, other: RawSocket)
        requires
            self.socket() == other.socket(),
            self.rx_buf_size() == other.rx_buf_size(),
        ensures
            self == other,
    {
    }

    /// Creates a socket of the classification (`domain`, `ty`, `proto`), binds
    /// it to the first of `candidates` and wraps it in a handle.
    ///
    /// `candidates` are the addresses that the local host and port resolved
    /// to, in the order of resolution. With none there is nothing to
    /// bind to: the call fails before it asks the system for anything. With at
    /// least one, the system decides, and a refusal is reported under the step
    /// that met it.
    pub fn new(
        candidates: Vec<socket2::SockAddr>,
        domain: socket2::Domain,
        ty: socket2::Type,
        proto: Option<socket2::Protocol>,
    ) -> (r: Result<RawSocket, RawSocketError>)
        ensures
            match first_candidate(candidates@) {
                Ok(_) => match r {
                    Ok(handle) => handle == RawSocket::adopted(handle.socket()),
                    Err(e) => e.spec_stage() matches Some(stage) && is_construction_stage(stage),
                },
                Err(e) => r matches Err(f) && f == e,
            },
    {
        let local = match resolve(candidates) {
            Ok(local) => local,
            Err(e) => {
                return Err(e);
            },
        };
        match bind_socket(&local, domain, ty, proto) {
            Ok(socket) => Ok(RawSocket::from(socket)),
            Err(e) => Err(e),
        }
    }

    /// The socket that the handle owns, for introspection and for the engine.
    pub fn as_socket(&self) -> (socket: &socket2::Socket)
        ensures
            *socket == self.socket(),
    {
        &self.socket
    }

    /// Sets the buffer size used on the receive path. Any size is taken as it
    /// is, zero too; the socket is not touched.
    pub fn set_buffer_size(&mut self, buffer_size: usize)
        ensures
            *final(self) == old(self).with_buffer_size(buffer_size),
    {
        self.rx_buf_size = buffer_size;
    }

    /// The buffer size used on the receive path.
    pub fn buffer_size(&mut self) -> (size: usize)
        ensures
            size == old(self).rx_buf_size(),
            *final(self) == *old(self),
    {
        self.rx_buf_size
    }

    /// Decides the send of `buf` to the first of `candidates`, the addresses
    /// that the destination's host and port resolved to.
    ///
    /// With no candidate the send fails here, and no datagram exists that
    /// could reach the system. Otherwise the datagram names this handle's
    /// socket, the payload unchanged, and the first candidate in the
    /// transport's address form.
    pub fn send_to<'a>(
        &'a self,
        buf: &'a [u8],
        candidates: Vec<nix::sys::socket::InetAddr>,
    ) -> (r: Result<Datagram<'a>, RawSocketError>)
        ensures
            match first_candidate(candidates@) {
                Ok(first) => r matches Ok(datagram) && {
                    &&& *datagram.socket == self.socket()
                    &&& datagram.payload@ == buf@
                    &&& datagram.destination == inet_transport(first)
                },
                Err(e) => r matches Err(f) && f == e,
            },
    {
        match resolve(candidates) {
            Ok(first) => Ok(
                Datagram {
                    socket: &self.socket,
                    payload: buf,
                    destination: nix::sys::socket::SockAddr::new_inet(first),
                },
            ),
            Err(e) => Err(e),
        }
    }

    /// What the engine's report on a datagram means: the number of bytes that
    /// the system accepted, as reported and even when it is short of the
    /// payload, or the engine's error as a send failure.
    pub fn send_outcome(reported: Result<usize, std::io::Error>) -> (r: Result<
        usize,
        RawSocketError,
    >)
        ensures
            r == spec_outcome_at(Stage::Send, reported),
    {
        outcome_at(Stage::Send, reported)
    }
}

impl From<socket2::Socket> for RawSocket {
    /// Adopts `socket` without looking at it: the caller answers for its
    /// being open, non-blocking and of a fitting classification.
    fn from(socket: socket2::Socket) -> (handle: RawSocket) {
        RawSocket { socket, rx_buf_size: DEFAULT_BUFFER_SIZE }
    }
}

impl FromSpecImpl<socket2::Socket> for RawSocket {
    open spec fn obeys_from_spec() -> bool {
        true
    }

    open spec fn from_spec(socket: socket2::Socket) -> RawSocket {
        RawSocket::adopted(socket)
    }
}

} // verus!
