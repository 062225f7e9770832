//! A non-blocking raw socket handle.
//!
//! A [`RawSocket`] owns one operating-system socket of any address family,
//! type and protocol, created non-blocking and bound to a local address. It
//! chooses the address to bind to and the destination of every send, and it
//! says which step failed when the system refuses. The transfer itself is the
//! work of an asynchronous datagram engine outside this crate, which the
//! handle hands a [`Datagram`] and whose report it passes on.

pub mod error;
pub mod factory;
pub mod handle;
pub mod os;
pub mod resolver;

pub use error::{outcome_at, RawSocketError, Stage};
pub use factory::bind_socket;
pub use handle::{Datagram, RawSocket, DEFAULT_BUFFER_SIZE};
pub use resolver::resolve;
