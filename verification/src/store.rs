//! The record store: an id-assigning table of plugin records.
//!
//! The store owns the durable state of the system. It assigns each created
//! record a fresh integer id, lists all live records, and deletes by id with
//! no-op semantics when the id is absent.

use vstd::prelude::*;
use crate::plugin::Plugin;

verus! {

/// Why a store write failed. Creating a record assigns the next integer id;
/// once the id space is exhausted no further row can be keyed uniquely.
#[derive(Clone, Copy, Debug, PartialEq, Eq, Structural)]
pub enum StorageError {
    IdSpaceExhausted,
}

/// The rows left after deleting every record whose id is `id`, keeping the
/// order of the rest.
pub open spec fn remove_id(s: Seq<Plugin>, id: i32) -> Seq<Plugin>
    decreases s.len(),
{
    if s.len() == 0 {
        Seq::empty()
    } else if s[0].id == id {
        remove_id(s.drop_first(), id)
    } else {
        seq![s[0]] + remove_id(s.drop_first(), id)
    }
}

/// A table of plugin records with a monotone id counter. Ids start at 1, are
/// assigned in creation order, and are never reused, so every live row's id is
/// below the counter and no two live rows share an id.
pub struct PluginStore {
    rows: Vec<Plugin>,
    next_id: i32,
}

impl PluginStore {
    /// The live rows, in storage order.
    pub closed spec fn rows(self) -> Seq<Plugin> {
        self.rows@
    }

    /// The id the next successful insert will assign.
    pub closed spec fn next_id(self) -> int {
        self.next_id as int
    }

    /// Whether some live row carries `id`.
    pub open spec fn contains_id(self, id: i32) -> bool {
        exists|i: int| 0 <= i < self.rows().len() && #[trigger] self.rows()[i].id == id
    }

    /// Well-formedness: ids start at 1, stay below the counter, and are
    /// pairwise distinct.
    pub open spec fn wf(self) -> bool {
        &&& 1 <= self.next_id()
        &&& forall|i: int|
            0 <= i < self.rows().len() ==> 1 <= #[trigger] self.rows()[i].id < self.next_id()
        &&& forall|i: int, j: int|
            0 <= i < j < self.rows().len() ==> #[trigger] self.rows()[i].id != #[trigger] self.rows()[j].id
    }

    /// An empty store whose first assigned id will be 1.
    pub fn new() -> (s: PluginStore)
        ensures
            s.wf(),
            s.rows() == Seq::<Plugin>::empty(),
            s.next_id() == 1,
    {
        PluginStore { rows: Vec::new(), next_id: 1 }
    }

    /// Assigns the next id, persists a row with the given fields, and returns
    /// the populated record. Succeeds exactly while the id space lasts; a
    /// failed insert leaves the store untouched. The returned id is fresh: no
    /// previously created and not-yet-deleted row carries it, and afterwards
    /// exactly one row does.
    pub fn insert(&mut self, description: String, wasm_url: String) -> (r: Result<
        Plugin,
        StorageError,
    >)
        requires
            old(self).wf(),
        ensures
            final(self).wf(),
            r is Ok <==> old(self).next_id() < i32::MAX,
            r is Err ==> *final(self) == *old(self) && r == Err::<Plugin, StorageError>(
                StorageError::IdSpaceExhausted,
            ),
            r matches Ok(p) ==> insert_effect(
                *old(self),
                *final(self),
                description@,
                wasm_url@,
                p,
            ),
    {
        if self.next_id == i32::MAX {
            return Err(StorageError::IdSpaceExhausted);
        }
        let id = self.next_id;
        let row = Plugin { id, description, wasm_url };
        let created = row.duplicate();
        proof {
            assert(!old(self).contains_id(id));
        }
        self.rows.push(row);
        self.next_id = id + 1;
        proof {
            assert forall|j: int|
                0 <= j < self.rows().len() implies (#[trigger] self.rows()[j].id == id <==> j
                == old(self).rows().len()) by {
                if j < old(self).rows().len() {
                    assert(self.rows()[j] == old(self).rows()[j]);
                }
            }
        }
        Ok(created)
    }

    /// All live rows, copied out in storage order.
    pub fn list(&self) -> (r: Vec<Plugin>)
        ensures
            r@.len() == self.rows().len(),
            forall|i: int| 0 <= i < r@.len() ==> #[trigger] r@[i].same_record(self.rows()[i]),
    {
        let mut out: Vec<Plugin> = Vec::new();
        let mut i: usize = 0;
        while i < self.rows.len()
            invariant
                i <= self.rows@.len(),
                out@.len() == i,
                forall|j: int| 0 <= j < i ==> #[trigger] out@[j].same_record(self.rows@[j]),
            decreases self.rows@.len() - i,
        {
            out.push(self.rows[i].duplicate());
            i += 1;
        }
        out
    }

    /// Removes the row carrying `id` if one is live; removing an absent id is
    /// a silent no-op. Either way the call succeeds and afterwards no live row
    /// carries `id`.
    pub fn delete_by_id(&mut self, id: i32)
        requires
            old(self).wf(),
        ensures
            final(self).wf(),
            delete_effect(*old(self), *final(self), id),
    {
        let ghost pre = old(self).rows();
        let mut i: usize = 0;
        while i < self.rows.len()
            invariant
                pre == old(self).rows(),
                self.rows@ == pre,
                self.next_id == old(self).next_id,
                old(self).wf(),
                i <= pre.len(),
                forall|j: int| 0 <= j < i ==> #[trigger] pre[j].id != id,
            decreases pre.len() - i,
        {
            if self.rows[i].id == id {
                let ghost k = i as int;
                proof {
                    assert forall|j: int| 0 <= j < pre.len() && j != k implies #[trigger] pre[j].id
                        != id by {
                        if j > k {
                            assert(old(self).rows()[k].id != old(self).rows()[j].id);
                        }
                    }
                }
                self.rows.remove(i);
                proof {
                    lemma_remove_id_single_match(pre, id, k);
                    assert(self.rows@ =~= remove_id(pre, id));
                    lemma_remove_id_absent(pre, id);
                    assert forall|a: int|
                        0 <= a < self.rows@.len() implies 1 <= #[trigger] self.rows@[a].id < self
                        .next_id() by {
                        let a2: int = if a < k {
                            a
                        } else {
                            a + 1
                        };
                        assert(self.rows@[a] == pre[a2]);
                        assert(1 <= old(self).rows()[a2].id < old(self).next_id());
                    }
                    assert forall|a: int, b: int|
                        0 <= a < b < self.rows@.len() implies #[trigger] self.rows@[a].id
                        != #[trigger] self.rows@[b].id by {
                        let a2: int = if a < k {
                            a
                        } else {
                            a + 1
                        };
                        let b2: int = if b < k {
                            b
                        } else {
                            b + 1
                        };
                        assert(self.rows@[a] == pre[a2]);
                        assert(self.rows@[b] == pre[b2]);
                        assert(old(self).rows()[a2].id != old(self).rows()[b2].id);
                    }
                }
                return;
            }
            i += 1;
        }
        proof {
            lemma_remove_id_no_match(pre, id);
        }
    }
}

/// What a successful insert did: the new record's id is the old counter value,
/// it was fresh, the fields echo the request, the old rows are untouched, the
/// new row is appended last, and exactly one live row carries the new id.
pub open spec fn insert_effect(
    pre: PluginStore,
    post: PluginStore,
    description: Seq<char>,
    wasm_url: Seq<char>,
    p: Plugin,
) -> bool {
    &&& post.wf()
    &&& p.id == pre.next_id()
    &&& !pre.contains_id(p.id)
    &&& p.description@ == description
    &&& p.wasm_url@ == wasm_url
    &&& post.rows().len() == pre.rows().len() + 1
    &&& forall|j: int| 0 <= j < pre.rows().len() ==> #[trigger] post.rows()[j] == pre.rows()[j]
    &&& post.rows().last().same_record(p)
    &&& forall|j: int|
        0 <= j < post.rows().len() ==> (#[trigger] post.rows()[j].id == p.id <==> j
        == pre.rows().len())
    &&& post.next_id() == pre.next_id() + 1
}

/// What a delete did: the surviving rows are the old ones without the given
/// id, in their old order; afterwards no row carries that id; the id counter
/// is untouched, so deleted ids are never reassigned.
pub open spec fn delete_effect(pre: PluginStore, post: PluginStore, id: i32) -> bool {
    &&& post.rows() == remove_id(pre.rows(), id)
    &&& !post.contains_id(id)
    &&& post.next_id() == pre.next_id()
}

/// Rows that never carried the id are left exactly as they were.
pub proof fn lemma_remove_id_no_match(s: Seq<Plugin>, id: i32)
    requires
        forall|j: int| 0 <= j < s.len() ==> #[trigger] s[j].id != id,
    ensures
        remove_id(s, id) == s,
    decreases s.len(),
{
    if s.len() > 0 {
        assert(s[0].id != id);
        lemma_remove_id_no_match(s.drop_first(), id);
        assert(seq![s[0]] + s.drop_first() =~= s);
    } else {
        assert(remove_id(s, id) =~= s);
    }
}

/// Deleting an id leaves no row carrying it.
pub proof fn lemma_remove_id_absent(s: Seq<Plugin>, id: i32)
    ensures
        forall|j: int| 0 <= j < remove_id(s, id).len() ==> #[trigger] remove_id(s, id)[j].id != id,
    decreases s.len(),
{
    if s.len() > 0 {
        lemma_remove_id_absent(s.drop_first(), id);
        assert forall|j: int|
            0 <= j < remove_id(s, id).len() implies #[trigger] remove_id(s, id)[j].id != id by {
            if s[0].id == id {
                assert(remove_id(s, id) == remove_id(s.drop_first(), id));
            } else {
                assert(remove_id(s, id) == seq![s[0]] + remove_id(s.drop_first(), id));
                if j > 0 {
                    assert(remove_id(s, id)[j] == remove_id(s.drop_first(), id)[j - 1]);
                }
            }
        }
    }
}

/// When exactly one row matches, deleting the id removes exactly that row.
pub proof fn lemma_remove_id_single_match(s: Seq<Plugin>, id: i32, i: int)
    requires
        0 <= i < s.len(),
        s[i].id == id,
        forall|j: int| 0 <= j < s.len() && j != i ==> #[trigger] s[j].id != id,
    ensures
        remove_id(s, id) == s.remove(i),
    decreases s.len(),
{
    if i == 0 {
        assert(forall|j: int|
            0 <= j < s.drop_first().len() ==> #[trigger] s.drop_first()[j].id != id);
        lemma_remove_id_no_match(s.drop_first(), id);
        assert(s.remove(0) =~= s.drop_first());
    } else {
        assert(s.drop_first()[i - 1].id == id);
        assert(forall|j: int|
            0 <= j < s.drop_first().len() && j != i - 1 ==> #[trigger] s.drop_first()[j].id != id);
        lemma_remove_id_single_match(s.drop_first(), id, i - 1);
        assert(seq![s[0]] + s.drop_first().remove(i - 1) =~= s.remove(i));
    }
}

/// Deleting an id twice is the same as deleting it once: the second call
/// finds nothing and leaves the store as it was.
pub proof fn lemma_remove_id_idempotent(s: Seq<Plugin>, id: i32)
    ensures
        remove_id(remove_id(s, id), id) == remove_id(s, id),
{
    lemma_remove_id_absent(s, id);
    lemma_remove_id_no_match(remove_id(s, id), id);
}

} // verus!
