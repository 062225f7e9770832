//! Choosing one address out of the candidates that a host and port resolved
//! to.

use vstd::prelude::*;
use crate::error::RawSocketError;

verus! {

/// The address that a list of candidates stands for: the first of them. A
/// list without candidates stands for none, which is a failure and never
/// passed over.
pub open spec fn first_candidate<A>(candidates: Seq<A>) -> Result<A, RawSocketError> {
    if candidates.len() == 0 {
        Err(RawSocketError::AddressResolutionFailure)
    } else {
        Ok(candidates[0])
    }
}

/// Picks the address to use from `candidates`, which hold the resolved
/// addresses in the order in which resolution gave them.
pub fn resolve<A>(candidates: Vec<A>) -> (r: Result<A, RawSocketError>)
    ensures
        r == first_candidate(candidates@),
{
    let mut candidates = candidates;
    if candidates.len() == 0 {
        Err(RawSocketError::AddressResolutionFailure)
    } else {
        Ok(candidates.swap_remove(0))
    }
}

} // verus!
