//! The operating-system side of the handle: the socket and address types of
//! `socket2` and `nix`, and the calls that the handle makes into them.
//!
//! Nothing in this file is proved. The types are opaque to the verifier, and
//! each contract below is taken on trust from the named function's source.

use vstd::prelude::*;

verus! {

/// `socket2::Socket`: an owned operating-system socket, closed when dropped.
#[verifier::external_type_specification]
#[verifier::external_body]
pub struct ExSocket(socket2::Socket);

/// `socket2::Domain`: the address family that a socket is created in.
#[verifier::external_type_specification]
#[verifier::external_body]
pub struct ExDomain(socket2::Domain);

/// `socket2::Type`: the communication semantics that a socket is created with.
#[verifier::external_type_specification]
#[verifier::external_body]
pub struct ExType(socket2::Type);

/// `socket2::Protocol`: the protocol that a socket is created for.
#[verifier::external_type_specification]
#[verifier::external_body]
pub struct ExProtocol(socket2::Protocol);

/// `socket2::SockAddr`: an address in the form that `bind` takes.
#[verifier::external_type_specification]
#[verifier::external_body]
pub struct ExBindAddr(socket2::SockAddr);

/// `nix::sys::socket::InetAddr`: an IPv4 or IPv6 address with its port.
#[verifier::external_type_specification]
#[verifier::external_body]
pub struct ExInetAddr(nix::sys::socket::InetAddr);

/// `nix::sys::socket::SockAddr`: an address in the form that the datagram
/// transport takes.
#[verifier::external_type_specification]
#[verifier::external_body]
pub struct ExTransportAddr(nix::sys::socket::SockAddr);

/// `std::io::Error`: what the operating system reports when a call fails.
#[verifier::external_type_specification]
#[verifier::external_body]
pub struct ExIoError(std::io::Error);

/// `socket2::Socket::new` asks the operating system for a socket of the given
/// domain, type and protocol. Whether one is granted is the system's decision,
/// so nothing is claimed of the result.
pub assume_specification[ socket2::Socket::new ](
    domain: socket2::Domain,
    ty: socket2::Type,
    protocol: Option<socket2::Protocol>,
) -> (made: Result<socket2::Socket, std::io::Error>)
;

/// `socket2::Socket::set_nonblocking` switches the socket into or out of
/// non-blocking mode. The system may refuse, so nothing is claimed of the
/// result.
pub assume_specification[ socket2::Socket::set_nonblocking ](
    socket: &socket2::Socket,
    nonblocking: bool,
) -> (set: Result<(), std::io::Error>)
;

/// `socket2::Socket::bind` binds the socket to a local address. The system may
/// refuse, so nothing is claimed of the result.
pub assume_specification[ socket2::Socket::bind ](
    socket: &socket2::Socket,
    address: &socket2::SockAddr,
) -> (bound: Result<(), std::io::Error>)
;

/// The transport form of an internet address: what
/// `nix::sys::socket::SockAddr::new_inet` returns for it.
pub uninterp spec fn inet_transport(addr: nix::sys::socket::InetAddr) -> nix::sys::socket::SockAddr;

/// `nix::sys::socket::SockAddr::new_inet` wraps an internet address in the
/// transport's address type. It reads nothing but its argument, so the result
/// is the transport form of that address.
pub assume_specification[ nix::sys::socket::SockAddr::new_inet ](
    addr: nix::sys::socket::InetAddr,
) -> (transport: nix::sys::socket::SockAddr)
    ensures
        transport == inet_transport(addr),
;

} // verus!
