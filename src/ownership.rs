//! The ownership registry: which worker may modify which resource path.

use vstd::prelude::*;
use crate::registry::{Keyed, Registry};
use crate::types::{AgentId, FileOwnership};

verus! {

impl Keyed for FileOwnership {
    open spec fn key(&self) -> Seq<char> {
        self.path@
    }

    open spec fn agent_of(&self) -> AgentId {
        self.owner
    }

    fn key_str(&self) -> (r: &str) {
        self.path.as_str()
    }

    fn agent(&self) -> (r: AgentId) {
        self.owner
    }
}

/// The decision of the modify check: an unregistered path is allowed to
/// everyone, a registered one only to its owner, whether or not it is shared.
pub open spec fn may_modify(m: Map<Seq<char>, FileOwnership>, agent: AgentId, p: Seq<char>) -> bool {
    !m.contains_key(p) || m[p].owner == agent
}

/// Registers ownership boundaries and answers authorization queries.
pub struct OwnershipManager {
    ownership_map: Registry<FileOwnership>,
}

impl View for OwnershipManager {
    type V = Map<Seq<char>, FileOwnership>;

    open spec fn view(&self) -> Map<Seq<char>, FileOwnership> {
        self.records()@
    }
}

impl OwnershipManager {
    pub closed spec fn records(&self) -> Registry<FileOwnership> {
        self.ownership_map
    }

    /// The records in registry order.
    pub open spec fn entries(&self) -> Seq<FileOwnership> {
        self.records().entries()
    }

    pub open spec fn wf(&self) -> bool {
        self.records().wf()
    }

    pub fn new() -> (r: Self)
        ensures
            r.wf(),
            r@ == Map::<Seq<char>, FileOwnership>::empty(),
    {
        OwnershipManager { ownership_map: Registry::new() }
    }

    /// Inserts a record, replacing the one for the same path.
    pub fn register(&mut self, ownership: FileOwnership)
        requires
            old(self).wf(),
        ensures
            final(self).wf(),
            final(self)@ == old(self)@.insert(ownership.path@, ownership),
    {
        self.ownership_map.register(ownership);
    }

    /// Whether `agent` may modify `path`.
    pub fn can_modify(&self, agent: AgentId, path: &str) -> (r: bool)
        requires
            self.wf(),
        ensures
            r == may_modify(self@, agent, path@),
    {
        match self.ownership_map.lookup(path) {
            Some(ownership) => ownership.owner == agent,
            None => true,
        }
    }

    /// Whether `agent` may read `path`: reads are never denied.
    pub fn can_read(&self, agent: AgentId, path: &str) -> (r: bool)
        ensures
            r,
    {
        true
    }

    /// The owner of `path`, if it is registered.
    pub fn get_owner(&self, path: &str) -> (r: Option<AgentId>)
        requires
            self.wf(),
        ensures
            r == (if self@.contains_key(path@) {
                Some(self@[path@].owner)
            } else {
                None
            }),
    {
        match self.ownership_map.lookup(path) {
            Some(ownership) => Some(ownership.owner),
            None => None,
        }
    }

    /// The records owned by `agent`, in registry order.
    pub fn get_agent_files(&self, agent: AgentId) -> (r: Vec<&FileOwnership>)
        ensures
            r@.len() == self.entries().filter(|o: FileOwnership| o.owner == agent).len(),
            forall|k: int|
                0 <= k < r@.len() ==> *r@[k] == self.entries().filter(
                    |o: FileOwnership| o.owner == agent,
                )[k],
    {
        let r = self.ownership_map.by_agent(agent);
        assert((|o: FileOwnership| o.agent_of() == agent) =~= (|o: FileOwnership| o.owner == agent));
        r
    }
}

} // verus!
