use plugin_stream::plugin::PluginNew;
use plugin_stream::store::PluginStore;

fn insert(store: &mut PluginStore, description: &str, wasm_url: &str) -> i32 {
    let created = store
        .insert(String::from(description), String::from(wasm_url))
        .expect("id space cannot be exhausted here");
    created.id
}

#[test]
fn list_is_empty_initially() {
    let store = PluginStore::new();
    assert_eq!(store.list().len(), 0);
}

#[test]
fn create_assigns_sequential_fresh_ids() {
    let mut store = PluginStore::new();
    let a = insert(&mut store, "logger", "https://x/logger.wasm");
    let b = insert(&mut store, "metrics", "https://x/metrics.wasm");
    let c = insert(&mut store, "tracer", "https://x/tracer.wasm");
    assert_eq!(a, 1);
    assert_eq!(b, 2);
    assert_eq!(c, 3);
    // A deleted id is never handed out again: the new id is unique with
    // respect to everything created before, deleted or not.
    store.delete_by_id(b);
    let d = insert(&mut store, "audit", "https://x/audit.wasm");
    assert_eq!(d, 4);
}

#[test]
fn insert_then_list_contains_exactly_one_matching_record() {
    let mut store = PluginStore::new();
    insert(&mut store, "logger", "https://x/logger.wasm");
    let id = insert(&mut store, "metrics", "https://x/metrics.wasm");
    let rows = store.list();
    let mut matching = 0;
    for row in &rows {
        if row.id == id {
            matching += 1;
            assert_eq!(row.description, "metrics");
            assert_eq!(row.wasm_url, "https://x/metrics.wasm");
        }
    }
    assert_eq!(matching, 1);
}

#[test]
fn empty_fields_are_accepted() {
    let mut store = PluginStore::new();
    let id = insert(&mut store, "", "");
    let rows = store.list();
    assert_eq!(rows.len(), 1);
    assert_eq!(rows[0].id, id);
    assert_eq!(rows[0].description, "");
    assert_eq!(rows[0].wasm_url, "");
}

#[test]
fn delete_removes_the_id_and_keeps_the_rest() {
    let mut store = PluginStore::new();
    let a = insert(&mut store, "logger", "https://x/logger.wasm");
    let b = insert(&mut store, "metrics", "https://x/metrics.wasm");
    let c = insert(&mut store, "tracer", "https://x/tracer.wasm");
    store.delete_by_id(b);
    let rows = store.list();
    assert_eq!(rows.len(), 2);
    assert!(rows.iter().all(|row| row.id != b));
    assert_eq!(rows[0].id, a);
    assert_eq!(rows[1].id, c);
}

#[test]
fn delete_is_idempotent() {
    let mut store = PluginStore::new();
    let a = insert(&mut store, "logger", "https://x/logger.wasm");
    store.delete_by_id(a);
    // Deleting the same id again succeeds silently and changes nothing.
    store.delete_by_id(a);
    assert_eq!(store.list().len(), 0);
}

#[test]
fn delete_of_an_absent_id_is_a_noop() {
    let mut store = PluginStore::new();
    let a = insert(&mut store, "logger", "https://x/logger.wasm");
    store.delete_by_id(999);
    let rows = store.list();
    assert_eq!(rows.len(), 1);
    assert_eq!(rows[0].id, a);
}
