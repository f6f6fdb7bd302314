//! Mutation and query handling: validate, write to the store, publish the
//! matching notification, and hand the result back for rendering.
//!
//! A mutation publishes exactly one notification, and only after the store
//! write succeeded; a failed write publishes nothing. Whether anyone was
//! listening never affects the caller: the subscriber count is reported, not
//! turned into an error.

use vstd::prelude::*;
use crate::bus::{publish_effect, EventBus, PublishOutcome};
use crate::plugin::{MutationKind, Plugin, PluginNew, PluginUpdate};
use crate::store::{delete_effect, insert_effect, PluginStore, StorageError};

verus! {

/// Handles a create request: persists a record with the requested fields
/// (any strings are accepted, empty ones included), then publishes one
/// `Create` notification carrying the freshly assigned id. Returns the
/// populated record together with where the notification went; publishing to
/// nobody is not a failure. If the store write fails nothing is published and
/// nothing changes.
pub fn create_plugin(store: &mut PluginStore, bus: &mut EventBus, req: PluginNew) -> (r: Result<
    (Plugin, PublishOutcome),
    StorageError,
>)
    requires
        old(store).wf(),
        old(bus).wf(),
    ensures
        final(store).wf(),
        final(bus).wf(),
        r is Ok <==> old(store).next_id() < i32::MAX,
        r is Err ==> *final(store) == *old(store) && *final(bus) == *old(bus) && r->Err_0
            == StorageError::IdSpaceExhausted,
        r matches Ok((p, outcome)) ==> insert_effect(
            *old(store),
            *final(store),
            req.description@,
            req.wasm_url@,
            p,
        ) && publish_effect(
            *old(bus),
            *final(bus),
            PluginUpdate { mutation_kind: MutationKind::Create, id: p.id },
            outcome,
        ),
{
    let PluginNew { description, wasm_url } = req;
    match store.insert(description, wasm_url) {
        Ok(p) => {
            let outcome = bus.publish(
                PluginUpdate { mutation_kind: MutationKind::Create, id: p.id },
            );
            Ok((p, outcome))
        },
        Err(e) => Err(e),
    }
}

/// Handles a delete request: removes the record carrying `id` if it is live,
/// then publishes one `Delete` notification for that id. Existence is
/// deliberately not checked first: deleting an absent id is a silent no-op on
/// the store, and the notification is published either way. Returns where the
/// notification went; publishing to nobody is not a failure.
pub fn delete_plugin(store: &mut PluginStore, bus: &mut EventBus, id: i32) -> (outcome:
    PublishOutcome)
    requires
        old(store).wf(),
        old(bus).wf(),
    ensures
        final(store).wf(),
        final(bus).wf(),
        delete_effect(*old(store), *final(store), id),
        publish_effect(
            *old(bus),
            *final(bus),
            PluginUpdate { mutation_kind: MutationKind::Delete, id },
            outcome,
        ),
{
    store.delete_by_id(id);
    bus.publish(PluginUpdate { mutation_kind: MutationKind::Delete, id })
}

/// Handles the list query: every live record, in storage order, copied out
/// for rendering. Reads publish nothing.
pub fn fetch_plugins(store: &PluginStore) -> (r: Vec<Plugin>)
    ensures
        r@.len() == store.rows().len(),
        forall|i: int| 0 <= i < r@.len() ==> #[trigger] r@[i].same_record(store.rows()[i]),
{
    store.list()
}

} // verus!
