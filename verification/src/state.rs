//! The value a module hands over across a reload.

use vstd::prelude::*;

verus! {

/// An opaque, pointer-sized value that only plugin code can interpret. The
/// host relays it and never looks inside. It is move-only: one reload moves
/// it from the outgoing adapter to the incoming one, and it is never copied.
#[derive(Debug)]
pub struct OpaqueState {
    addr: usize,
}

impl View for OpaqueState {
    type V = usize;

    closed spec fn view(&self) -> usize {
        self.addr
    }
}

impl OpaqueState {
    /// Wraps the address that a module's `dump_state` returned.
    pub fn from_addr(addr: usize) -> (state: OpaqueState)
        ensures
            state@ == addr,
    {
        OpaqueState { addr }
    }

    /// Gives the address back, consuming the state, to pass to a module's
    /// `initialize`.
    pub fn into_addr(self) -> (addr: usize)
        ensures
            addr == self@,
    {
        self.addr
    }

    /// A state is determined by its address.
    pub proof fn lemma_view_injective(a: OpaqueState, b: OpaqueState)
        requires
            a@ == b@,
        ensures
            a == b,
    {
    }
}

} // verus!
