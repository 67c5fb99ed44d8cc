//! The routing runtime: group name to group, where each group holds the name
//! of its currently selected outbound. Groups are registered at startup; the
//! control plane rebinds a group's selection at runtime and sessions read it.
//! The runtime is a value; callers that share it across tasks wrap it in a
//! reader/writer lock outside the verified core, so a reader always observes
//! a whole selection, never a torn one.
use vstd::prelude::*;

use crate::assoc;

verus! {

#[derive(Clone)]
pub struct ProxyGroup {
    current: String,
}

impl ProxyGroup {
    /// The currently selected outbound name.
    pub closed spec fn selection(&self) -> Seq<char> {
        self.current@
    }

    pub fn new(default: &str) -> (g: Self)
        ensures
            g.selection() == default@,
    {
        ProxyGroup { current: default.to_owned() }
    }

    /// Returns a copy of the current selection.
    pub fn get(&self) -> (r: String)
        ensures
            r@ == self.selection(),
    {
        self.current.clone()
    }

    /// Replaces the current selection; every later `get` returns `name`
    /// until the next `set`.
    pub fn set(&mut self, name: &str)
        ensures
            final(self).selection() == name@,
    {
        self.current = name.to_owned();
    }
}

#[derive(Clone)]
pub struct ProxyRuntime {
    groups: Vec<(String, ProxyGroup)>,
}

impl ProxyRuntime {
    /// The group registered under `name`, if any.
    pub closed spec fn spec_group(&self, name: Seq<char>) -> Option<ProxyGroup> {
        assoc::lookup(self.groups@, name)
    }

    pub fn new() -> (r: Self)
        ensures
            forall|n: Seq<char>| #[trigger] r.spec_group(n) is None,
    {
        ProxyRuntime { groups: Vec::new() }
    }

    /// Registers (or re-registers) a group whose initial selection is
    /// `default`; other groups keep their bindings.
    pub fn register_group(&mut self, group_name: &str, default: &str)
        ensures
            final(self).spec_group(group_name@) matches Some(g) && g.selection() == default@,
            forall|n: Seq<char>|
                n != group_name@ ==> #[trigger] final(self).spec_group(n) == old(self).spec_group(
                    n,
                ),
    {
        let group = ProxyGroup::new(default);
        assoc::put(&mut self.groups, group_name, group);
    }

    /// A snapshot of the group registered under `name`.
    pub fn get_group(&self, name: &str) -> (r: Option<&ProxyGroup>)
        ensures
            match r {
                Some(g) => self.spec_group(name@) == Some(*g),
                None => self.spec_group(name@) is None,
            },
    {
        assoc::get(&self.groups, name)
    }

    /// Rebinds the selection of the group registered under `group_name` and
    /// reports whether such a group exists; absence leaves the runtime
    /// unchanged, and other groups keep their bindings either way.
    pub fn set_selection(&mut self, group_name: &str, outbound: &str) -> (r: bool)
        ensures
            r == (old(self).spec_group(group_name@) is Some),
            r ==> (final(self).spec_group(group_name@) matches Some(g) && g.selection()
                == outbound@),
            forall|n: Seq<char>|
                n != group_name@ ==> #[trigger] final(self).spec_group(n) == old(self).spec_group(
                    n,
                ),
            !r ==> final(self).spec_group(group_name@) == old(self).spec_group(group_name@),
    {
        let group = ProxyGroup::new(outbound);
        assoc::replace(&mut self.groups, group_name, group)
    }
}

} // verus!
