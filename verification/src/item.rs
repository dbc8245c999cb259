//! The sole resource type, `Item`, in two forms: as submitted by a client
//! (identifier possibly absent) and as persisted in the store (identifier
//! always present), together with the partial update document that the edit
//! operation sends to the store.

use vstd::prelude::*;
use crate::oid::ItemId;

verus! {

/// An item as it crosses the wire: the identifier is absent in create
/// payloads and populated in edit payloads and in listings.
pub struct Item {
    pub id: Option<ItemId>,
    pub name: String,
    pub description: String,
}

/// The mathematical model of a stored item: its identifier bytes and its two
/// string fields.
pub ghost struct ItemModel {
    pub id: Seq<u8>,
    pub name: Seq<char>,
    pub description: Seq<char>,
}

/// An item as persisted: the identifier is always present.
pub struct StoredItem {
    pub id: ItemId,
    pub name: String,
    pub description: String,
}

impl View for StoredItem {
    type V = ItemModel;

    open spec fn view(&self) -> ItemModel {
        ItemModel { id: self.id@, name: self.name@, description: self.description@ }
    }
}

impl StoredItem {
    /// A copy of the stored item.
    pub fn clone_item(&self) -> (r: StoredItem)
        ensures
            r@ == self@,
    {
        StoredItem {
            id: self.id.clone_id(),
            name: self.name.clone(),
            description: self.description.clone(),
        }
    }
}

/// The update document sent to the store by the edit operation: it carries
/// `name` and `description` and nothing else, so the stored identifier (and
/// any other stored field) is left untouched — a partial merge, not a
/// document replacement.
pub struct UpdateDoc {
    pub name: String,
    pub description: String,
}

/// Builds the update document for an edited item: the submitted `name` and
/// `description` are taken over, the identifier is dropped.
pub fn update_doc_of(item: Item) -> (r: UpdateDoc)
    ensures
        r.name@ == item.name@,
        r.description@ == item.description@,
{
    UpdateDoc { name: item.name, description: item.description }
}

} // verus!
