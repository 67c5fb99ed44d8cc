//! A standalone routing slot: a group holding the name of the outbound that
//! is currently selected for it. The selection is replaced by the control
//! plane and read on the session hot path; a reader always sees either the
//! previous or the new selection whole, never a torn value, because the slot
//! is owned by value and shared behind a lock outside the verified core.
use vstd::prelude::*;

verus! {

#[derive(Clone)]
pub struct ProxyGroup {
    current: String,
}

impl ProxyGroup {
    /// The currently selected outbound name.
    pub closed spec fn selection(&self) -> Seq<char> {
        self.current@
    }

    pub fn new(default: String) -> (g: Self)
        ensures
            g.selection() == default@,
    {
        ProxyGroup { current: default }
    }

    /// Returns a copy of the current selection.
    pub fn get(&self) -> (r: String)
        ensures
            r@ == self.selection(),
    {
        self.current.clone()
    }

    /// Replaces the current selection; every later `get` returns `name`
    /// until the next `set`.
    pub fn set(&mut self, name: String)
        ensures
            final(self).selection() == name@,
    {
        self.current = name;
    }
}

} // verus!
