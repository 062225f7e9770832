//! Making the operating-system socket that a handle owns.

use vstd::prelude::*;
use crate::error::{outcome_at, RawSocketError, Stage};

verus! {

/// Whether `stage` is one of the steps of making a socket.
pub open spec fn is_construction_stage(stage: Stage) -> bool {
    stage == Stage::Creation || stage == Stage::Configuration || stage == Stage::Bind
}

/// Creates a socket of the classification (`domain`, `ty`, `protocol`),
/// switches it to non-blocking mode and binds it to `local`, in that order.
///
/// The first step that the system refuses ends the attempt: its error comes
/// back under that step's failure, nothing is tried again, and a socket that
/// was already created is closed as it goes out of scope. The classification
/// is judged by the system alone, when it creates the socket.
pub fn bind_socket(
    local: &socket2::SockAddr,
    domain: socket2::Domain,
    ty: socket2::Type,
    protocol: Option<socket2::Protocol>,
) -> (r: Result<socket2::Socket, RawSocketError>)
    ensures
        r matches Err(e) ==> e.spec_stage() matches Some(stage) && is_construction_stage(stage),
{
    let socket = match outcome_at(Stage::Creation, socket2::Socket::new(domain, ty, protocol)) {
        Ok(socket) => socket,
        Err(e) => {
            return Err(e);
        },
    };
    match outcome_at(Stage::Configuration, socket.set_nonblocking(true)) {
        Ok(()) => {},
        Err(e) => {
            return Err(e);
        },
    }
    match outcome_at(Stage::Bind, socket.bind(local)) {
        Ok(()) => {},
        Err(e) => {
            return Err(e);
        },
    }
    Ok(socket)
}

} // verus!
