//! A stand-in outbound that, like the direct one, opens a plain TCP
//! connection to the destination; kept for parity with the handler set.
use vstd::prelude::*;

verus! {

#[derive(Clone, Copy)]
pub struct FakeProxy;

} // verus!
