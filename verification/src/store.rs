//! A model of the document store's single collection of items, with the four
//! single-document operations the handlers use. The model keeps the items in
//! their insertion order (the store's natural iteration order at a point in
//! time) and tracks, as ghost state, every identifier ever assigned, so that
//! the identifier-uniqueness discipline can be stated and proved.

use vstd::prelude::*;
use crate::item::{ItemModel, StoredItem, UpdateDoc};
use crate::oid::ItemId;

verus! {

/// An error reported by the store for a single-document operation.
pub enum StoreError {
    /// A document with the submitted identifier is already present.
    DuplicateId,
}

/// The collection of stored items. `items` holds the documents in iteration
/// order; `assigned` is the ghost set of every identifier ever assigned,
/// deleted ones included.
pub struct Store {
    items: Vec<StoredItem>,
    assigned: Ghost<Set<Seq<u8>>>,
}

impl Store {
    /// The stored documents, in iteration order.
    pub closed spec fn items_model(&self) -> Seq<ItemModel> {
        self.items@.map_values(|it: StoredItem| it@)
    }

    /// Every identifier ever assigned by a create, deleted ones included.
    pub closed spec fn assigned_ids(&self) -> Set<Seq<u8>> {
        self.assigned@
    }

    /// Whether a document with the given identifier is currently stored.
    pub open spec fn contains_id(&self, id: Seq<u8>) -> bool {
        exists|j: int|
            0 <= j < self.items_model().len() && (#[trigger] self.items_model()[j]).id == id
    }

    /// The store's invariant: every stored identifier is twelve bytes (hence
    /// non-empty) and was assigned, and no two documents share an identifier.
    pub open spec fn wf(&self) -> bool {
        &&& forall|j: int|
            0 <= j < self.items_model().len() ==> (#[trigger] self.items_model()[j]).id.len()
                == 12 && self.assigned_ids().contains(self.items_model()[j].id)
        &&& forall|j: int, k: int|
            #![trigger self.items_model()[j], self.items_model()[k]]
            0 <= j < k < self.items_model().len() ==> self.items_model()[j].id
                != self.items_model()[k].id
    }

    /// An empty store: no documents, no identifier assigned yet.
    pub fn new() -> (r: Store)
        ensures
            r.wf(),
            r.items_model() == Seq::<ItemModel>::empty(),
            r.assigned_ids() == Set::<Seq<u8>>::empty(),
    {
        let r = Store { items: Vec::new(), assigned: Ghost(Set::empty()) };
        proof {
            assert(r.items_model() =~= Seq::<ItemModel>::empty());
        }
        r
    }

    /// The index of the document with the given identifier, if one is stored.
    fn find_index(&self, id: &ItemId) -> (r: Option<usize>)
        ensures
            r is Some ==> 0 <= r->0 < self.items_model().len() && self.items_model()[r->0 as int].id == id@,
            r is None ==> !self.contains_id(id@),
            r is Some ==> self.contains_id(id@),
    {
        let mut j: usize = 0;
        while j < self.items.len()
            invariant
                j <= self.items@.len(),
                forall|k: int| 0 <= k < j ==> (#[trigger] self.items_model()[k]).id != id@,
            decreases self.items@.len() - j,
        {
            if self.items[j].id.eq_id(id) {
                proof {
                    assert(self.contains_id(id@)) by {
                        assert((#[trigger] self.items_model()[j as int]).id == id@);
                    }
                }
                return Some(j);
            }
            j = j + 1;
        }
        None
    }

    /// Inserts a new document. The store refuses an identifier that is
    /// already present and stores the document otherwise; in either case it
    /// records the identifier as assigned.
    pub fn insert_one(&mut self, item: StoredItem) -> (r: Result<(), StoreError>)
        requires
            old(self).wf(),
        ensures
            final(self).wf(),
            old(self).contains_id(item@.id) ==> r is Err && final(self).items_model() == old(
                self,
            ).items_model() && final(self).assigned_ids() == old(self).assigned_ids(),
            !old(self).contains_id(item@.id) ==> r is Ok && final(self).items_model() == old(
                self,
            ).items_model().push(item@) && final(self).assigned_ids() == old(
                self,
            ).assigned_ids().insert(item@.id),
    {
        match self.find_index(&item.id) {
            Some(_) => Err(StoreError::DuplicateId),
            None => {
                proof {
                    use_type_invariant(&item.id);
                    assert forall|j: int| 0 <= j < self.items_model().len() implies (
                    #[trigger] self.items_model()[j]).id != item@.id by {
                        if self.items_model()[j].id == item@.id {
                            assert(self.contains_id(item@.id));
                        }
                    }
                }
                self.assigned = Ghost(self.assigned@.insert(item.id@));
                self.items.push(item);
                proof {
                    assert(self.items_model() =~= old(self).items_model().push(item@));
                }
                Ok(())
            },
        }
    }

    /// Returns a copy of every stored document, in iteration order: an
    /// unfiltered, unbounded scan.
    pub fn find_all(&self) -> (r: Vec<StoredItem>)
        ensures
            r@.len() == self.items_model().len(),
            forall|j: int| 0 <= j < r@.len() ==> (#[trigger] r@[j])@ == self.items_model()[j],
    {
        let mut r: Vec<StoredItem> = Vec::new();
        let mut j: usize = 0;
        while j < self.items.len()
            invariant
                j <= self.items@.len(),
                r@.len() == j,
                forall|k: int| 0 <= k < j ==> (#[trigger] r@[k])@ == self.items_model()[k],
            decreases self.items@.len() - j,
        {
            r.push(self.items[j].clone_item());
            j = j + 1;
        }
        r
    }

    /// Applies a partial update: on the document matching the filter
    /// identifier — if the filter holds one and it is stored — `name` and
    /// `description` are set to the update document's fields and the
    /// identifier (and position) is left untouched; every other document is
    /// unchanged. Returns the number of documents matched.
    pub fn update_one(&mut self, filter_id: &Option<ItemId>, update: &UpdateDoc) -> (r: u64)
        requires
            old(self).wf(),
        ensures
            final(self).wf(),
            final(self).assigned_ids() == old(self).assigned_ids(),
            final(self).items_model().len() == old(self).items_model().len(),
            (*filter_id) is None ==> final(self).items_model() == old(self).items_model() && r
                == 0,
            (*filter_id) is Some ==> forall|j: int|
                0 <= j < old(self).items_model().len() && (#[trigger] old(
                    self,
                ).items_model()[j]).id == (*filter_id)->0@ ==> final(self).items_model()[j] == (
                ItemModel {
                    id: old(self).items_model()[j].id,
                    name: update.name@,
                    description: update.description@,
                }),
            (*filter_id) is Some ==> forall|j: int|
                0 <= j < old(self).items_model().len() && (#[trigger] old(
                    self,
                ).items_model()[j]).id != (*filter_id)->0@ ==> final(self).items_model()[j] == old(
                    self,
                ).items_model()[j],
            r == (if (*filter_id) is Some && old(self).contains_id((*filter_id)->0@) {
                1u64
            } else {
                0u64
            }),
    {
        match filter_id {
            None => 0,
            Some(id) => {
                match self.find_index(id) {
                    None => 0,
                    Some(j) => {
                        let found = self.items.remove(j);
                        let edited = StoredItem {
                            id: found.id,
                            name: update.name.clone(),
                            description: update.description.clone(),
                        };
                        self.items.insert(j, edited);
                        proof {
                            assert forall|k: int|
                                0 <= k < old(self).items_model().len() implies #[trigger] self.items_model()[k]
                                == (if old(self).items_model()[k].id == id@ {
                                    (ItemModel {
                                        id: old(self).items_model()[k].id,
                                        name: update.name@,
                                        description: update.description@,
                                    })
                                } else {
                                    old(self).items_model()[k]
                                }) by {
                                assert(self.items@ =~= old(self).items@.update(
                                    j as int,
                                    self.items@[j as int],
                                ));
                            }
                        }
                        1
                    },
                }
            },
        }
    }

    /// Deletes the document with the given identifier, if one is stored, and
    /// returns the number of documents deleted: one when the identifier was
    /// present, zero otherwise. Afterwards the identifier is absent either
    /// way; no other document is touched.
    pub fn delete_one(&mut self, id: &ItemId) -> (r: u64)
        requires
            old(self).wf(),
        ensures
            final(self).wf(),
            final(self).assigned_ids() == old(self).assigned_ids(),
            old(self).contains_id(id@) ==> r == 1 && (exists|j: int|
                0 <= j < old(self).items_model().len() && (#[trigger] old(
                    self,
                ).items_model()[j]).id == id@ && final(self).items_model() == old(
                    self,
                ).items_model().remove(j)),
            !old(self).contains_id(id@) ==> r == 0 && final(self).items_model() == old(
                self,
            ).items_model(),
            !final(self).contains_id(id@),
    {
        match self.find_index(id) {
            None => 0,
            Some(j) => {
                self.items.remove(j);
                proof {
                    old(self).items_model().remove_ensures(j as int);
                    assert(self.items_model() =~= old(self).items_model().remove(j as int));
                    assert forall|k: int|
                        0 <= k < self.items_model().len() implies (
                    #[trigger] self.items_model()[k]).id != id@ by {
                        if k < j {
                            assert(self.items_model()[k] == old(self).items_model()[k]);
                        } else {
                            assert(self.items_model()[k] == old(self).items_model()[k + 1]);
                        }
                    }
                }
                1
            },
        }
    }
}

} // verus!
