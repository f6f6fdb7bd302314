//! The record and notification types.

use vstd::prelude::*;

verus! {

/// A persisted plugin record. The store assigns `id`; it is unique among all
/// live records and immutable once assigned.
#[derive(Debug)]
pub struct Plugin {
    pub id: i32,
    pub description: String,
    pub wasm_url: String,
}

/// A request to create a plugin record: the caller supplies both text fields,
/// the store assigns the id. Any strings are accepted, including empty ones.
#[derive(Debug)]
pub struct PluginNew {
    pub description: String,
    pub wasm_url: String,
}

/// The kind of a store mutation.
#[derive(Clone, Copy, Debug, PartialEq, Eq, Structural)]
pub enum MutationKind {
    Create,
    Delete,
}

/// A notification published on the event bus: which kind of mutation happened
/// and which record id it affected. Subscribers that need the full record must
/// re-query the store.
#[derive(Clone, Copy, Debug, PartialEq, Eq, Structural)]
pub struct PluginUpdate {
    pub mutation_kind: MutationKind,
    pub id: i32,
}

impl Plugin {
    /// Field-for-field equality at the spec level.
    pub open spec fn same_record(self, other: Plugin) -> bool {
        &&& self.id == other.id
        &&& self.description@ == other.description@
        &&& self.wasm_url@ == other.wasm_url@
    }

    /// A deep copy whose fields are provably those of the original; a derived
    /// `Clone` on a type with `String` fields would say nothing to the
    /// verifier, so copying is done here by hand.
    pub fn duplicate(&self) -> (r: Plugin)
        ensures
            r.same_record(*self),
    {
        Plugin {
            id: self.id,
            description: self.description.clone(),
            wasm_url: self.wasm_url.clone(),
        }
    }
}

} // verus!
