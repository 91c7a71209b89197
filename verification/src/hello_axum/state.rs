//! The item list and the counter that numbers new items.

use vstd::prelude::*;

use crate::hello_axum::handlers::CreateItem;
use crate::hello_axum::models::Item;

verus! {

/// The service's items, in the order they were created, and the id that the
/// next item gets.
pub struct ItemStore {
    next_id: u64,
    items: Vec<Item>,
}

impl ItemStore {
    pub closed spec fn spec_items(&self) -> Seq<Item> {
        self.items@
    }

    pub closed spec fn spec_next_id(&self) -> u64 {
        self.next_id
    }

    /// Items are numbered 1, 2, 3, ... in the order they were created, and
    /// the next item gets the number after the last.
    pub open spec fn ids_sequential(&self) -> bool {
        &&& self.spec_next_id() == self.spec_items().len() + 1
        &&& forall|i: int|
            0 <= i < self.spec_items().len() ==> (#[trigger] self.spec_items()[i]).id == i + 1
    }

    /// One creation: it hands out the counter's id, appends an item with
    /// that id, and moves the counter on by one (wrapping at the top of
    /// `u64`).
    pub open spec fn created(before: ItemStore, after: ItemStore, id: u64) -> bool {
        &&& id == before.spec_next_id()
        &&& after.spec_next_id() == (if before.spec_next_id() == u64::MAX {
            0
        } else {
            (before.spec_next_id() + 1) as u64
        })
        &&& after.spec_items().len() == before.spec_items().len() + 1
        &&& after.spec_items().last().id == id
    }

    /// No items yet; the first one gets id 1.
    pub fn new() -> (r: ItemStore)
        ensures
            r.spec_items() == Seq::<Item>::empty(),
            r.spec_next_id() == 1,
            r.ids_sequential(),
    {
        ItemStore { next_id: 1, items: Vec::new() }
    }

    /// Adds an item made from `payload` under the next id, and returns that
    /// id. The counter moves on by one, wrapping around at the top of `u64`.
    pub fn create_item(&mut self, payload: CreateItem) -> (id: u64)
        ensures
            id == old(self).spec_next_id(),
            final(self).spec_items() == old(self).spec_items().push(
                Item { id, name: payload.name, description: payload.description },
            ),
            final(self).spec_next_id() == (if old(self).spec_next_id() == u64::MAX {
                0
            } else {
                (old(self).spec_next_id() + 1) as u64
            }),
            ItemStore::created(*old(self), *final(self), id),
            old(self).ids_sequential() && old(self).spec_next_id() < u64::MAX
                ==> final(self).ids_sequential(),
    {
        let id: u64 = self.next_id;
        self.next_id = if self.next_id == u64::MAX {
            0
        } else {
            self.next_id + 1
        };
        self.items.push(Item { id, name: payload.name, description: payload.description });
        id
    }

    /// A copy of all items, in the order they were created.
    pub fn list_items(&self) -> (r: Vec<Item>)
        ensures
            r@ == self.spec_items(),
    {
        let mut r: Vec<Item> = Vec::new();
        let mut i: usize = 0;
        while i < self.items.len()
            invariant
                i <= self.items@.len(),
                r@ == self.items@.subrange(0, i as int),
            decreases self.items@.len() - i,
        {
            r.push(self.items[i].duplicate());
            i = i + 1;
        }
        assert(r@ =~= self.items@);
        r
    }
}

proof fn counter_after_creations(stores: Seq<ItemStore>, ids: Seq<u64>, k: int)
    requires
        stores.len() == ids.len() + 1,
        forall|m: int| 0 <= m < ids.len() ==> ItemStore::created(stores[m], stores[m + 1], #[trigger] ids[m]),
        forall|m: int| 0 <= m < ids.len() ==> #[trigger] stores[m].spec_next_id() < u64::MAX,
        0 <= k <= ids.len(),
    ensures
        stores[k].spec_next_id() == stores[0].spec_next_id() + k,
    decreases k,
{
    if k > 0 {
        counter_after_creations(stores, ids, k - 1);
        assert(ItemStore::created(stores[k - 1], stores[k], ids[k - 1]));
        assert(stores[k - 1].spec_next_id() < u64::MAX);
    }
}

/// The ids that successive creations hand out strictly increase (so no id
/// is handed out twice), as long as the counter has not reached the top of
/// `u64`; with the counter of a new store, the first one is 1.
pub proof fn created_ids_increase(stores: Seq<ItemStore>, ids: Seq<u64>)
    requires
        stores.len() == ids.len() + 1,
        forall|m: int| 0 <= m < ids.len() ==> ItemStore::created(stores[m], stores[m + 1], #[trigger] ids[m]),
        forall|m: int| 0 <= m < ids.len() ==> #[trigger] stores[m].spec_next_id() < u64::MAX,
    ensures
        forall|i: int, j: int| 0 <= i < j < ids.len() ==> ids[i] < ids[j],
        ids.len() > 0 && stores[0].spec_next_id() == 1 ==> ids[0] == 1,
{
    assert forall|i: int, j: int| 0 <= i < j < ids.len() implies ids[i] < ids[j] by {
        counter_after_creations(stores, ids, i);
        counter_after_creations(stores, ids, j);
        assert(ItemStore::created(stores[i], stores[i + 1], ids[i]));
        assert(ItemStore::created(stores[j], stores[j + 1], ids[j]));
    }
    if ids.len() > 0 {
        assert(ItemStore::created(stores[0], stores[1], ids[0]));
    }
}

} // verus!
