//! The direct outbound: a plain TCP connection to the destination, with no
//! framing. Opening the socket is I/O and happens outside the verified core;
//! the handler itself carries no state.
use vstd::prelude::*;

verus! {

#[derive(Clone, Copy)]
pub struct DirectProxy;

} // verus!
