//! The four operation handlers, each performing exactly one store operation
//! against the collection model and translating its outcome into an HTTP
//! reply: Create, ReadAll, Update, Delete.

use vstd::prelude::*;
use vstd::string::StringExecFns;
use crate::http::{add_outcome_reply, delete_outcome_reply, edit_outcome_reply, invalid_id_reply,
    read_outcome_reply, Body, Reply};
use crate::item::{Item, ItemModel, StoredItem};
use crate::oid::{decoded_id, generate_id, valid_id_encoding, ItemId};
use crate::store::Store;

verus! {

/// Create, with the fresh identifier handed in: stores a new document made
/// of the submitted fields and the identifier — which, being fresh, cannot
/// collide — and reports success. Any identifier in the submitted payload
/// has already been discarded by taking `name` and `description` alone.
pub fn add_item(store: &mut Store, name: String, description: String, id: ItemId) -> (r: Reply)
    requires
        old(store).wf(),
        !old(store).assigned_ids().contains(id@),
    ensures
        final(store).wf(),
        final(store).items_model() == old(store).items_model().push(
            (ItemModel { id: id@, name: name@, description: description@ }),
        ),
        final(store).assigned_ids() == old(store).assigned_ids().insert(id@),
        r.status == 200 && (r.body matches Body::Message(m) && m@ == "Item added successfully"@),
{
    proof {
        use_type_invariant(&id);
        if store.contains_id(id@) {
            let j = choose|j: int|
                0 <= j < store.items_model().len() && (#[trigger] store.items_model()[j]).id
                    == id@;
            assert(store.assigned_ids().contains(store.items_model()[j].id));
        }
    }
    let item = StoredItem { id, name, description };
    match store.insert_one(item) {
        Ok(()) => add_outcome_reply(Ok(())),
        Err(_) => {
            proof {
                assert(false);
            }
            add_outcome_reply(Ok(()))
        },
    }
}

/// Create as the service runs it: a fresh identifier is generated by the
/// store driver and the document inserted under it. The generated value is
/// not predictable, so the contract states what holds of every outcome: on
/// success the collection has grown by exactly the submitted fields under
/// some identifier not stored before; on a duplicate-key failure — possible
/// only against a non-empty collection — the collection is unchanged and the
/// duplicate is reported as HTTP 500 with the prefixed error text. On an
/// empty collection success is therefore owed outright.
pub fn add_item_generated(store: &mut Store, name: String, description: String) -> (r: Reply)
    requires
        old(store).wf(),
    ensures
        final(store).wf(),
        r.status == 200 || r.status == 500,
        r.status == 200 ==> (exists|id: Seq<u8>|
            id.len() == 12 && !old(store).contains_id(id) && final(store).items_model() == old(
                store,
            ).items_model().push((ItemModel { id: id, name: name@, description: description@ }))),
        r.status == 200 ==> (r.body matches Body::Message(m) && m@ == "Item added successfully"@),
        r.status == 500 ==> final(store).items_model() == old(store).items_model(),
        r.status == 500 ==> old(store).items_model().len() > 0,
        r.status == 500 ==> (r.body matches Body::JsonMessage(m) && m@ == "Failed to add item: "@
            + "duplicate identifier"@),
{
    let id = generate_id();
    proof {
        use_type_invariant(&id);
    }
    let ghost id_seq = id@;
    let item = StoredItem { id, name, description };
    match store.insert_one(item) {
        Ok(()) => {
            proof {
                assert(!old(store).contains_id(id_seq) && final(store).items_model() == old(
                    store,
                ).items_model().push(
                    (ItemModel { id: id_seq, name: name@, description: description@ }),
                ));
            }
            add_outcome_reply(Ok(()))
        },
        Err(_) => add_outcome_reply(Err(String::from_str("duplicate identifier"))),
    }
}

/// ReadAll: scans the whole collection, with no filter, sort or limit, and
/// returns every document — each with its identifier — as an HTTP 200 reply.
pub fn get_all_items(store: &Store) -> (r: Reply)
    ensures
        r.status == 200,
        r.body matches Body::Items(v) && v@.len() == store.items_model().len() && (forall|j: int|
            0 <= j < v@.len() ==> (#[trigger] v@[j])@ == store.items_model()[j]),
{
    read_outcome_reply(Some(store.find_all()))
}

/// Update: filters the collection on equality with the submitted identifier
/// and sets `name` and `description` on the matched document, leaving its
/// identifier — and its position — untouched; a partial merge, not a
/// replacement. An absent or unmatched identifier matches no document, and
/// the operation still reports success: HTTP 200 either way.
pub fn edit_item(store: &mut Store, item: Item) -> (r: Reply)
    requires
        old(store).wf(),
    ensures
        final(store).wf(),
        final(store).assigned_ids() == old(store).assigned_ids(),
        final(store).items_model().len() == old(store).items_model().len(),
        item.id is None ==> final(store).items_model() == old(store).items_model(),
        item.id is Some ==> forall|j: int|
            0 <= j < old(store).items_model().len() && (#[trigger] old(
                store,
            ).items_model()[j]).id == item.id->0@ ==> final(store).items_model()[j] == (ItemModel {
                id: old(store).items_model()[j].id,
                name: item.name@,
                description: item.description@,
            }),
        item.id is Some ==> forall|j: int|
            0 <= j < old(store).items_model().len() && (#[trigger] old(
                store,
            ).items_model()[j]).id != item.id->0@ ==> final(store).items_model()[j] == old(
                store,
            ).items_model()[j],
        r.status == 200 && (r.body matches Body::Message(m) && m@ == "Item edited successfully"@),
{
    let filter_id: Option<ItemId> = match &item.id {
        None => None,
        Some(id) => Some(id.clone_id()),
    };
    let update = crate::item::update_doc_of(item);
    let _matched = store.update_one(&filter_id, &update);
    edit_outcome_reply(Ok(()))
}

/// Delete, from the raw path segment: a segment that is no valid identifier
/// encoding is rejected as HTTP 400 with no store operation; otherwise the
/// document under that identifier is deleted, HTTP 200 when one was there
/// and HTTP 404 when none was.
pub fn delete_item(store: &mut Store, path_segment: &str) -> (r: Reply)
    requires
        old(store).wf(),
    ensures
        final(store).wf(),
        final(store).assigned_ids() == old(store).assigned_ids(),
        !valid_id_encoding(path_segment@) ==> r.status == 400 && final(store).items_model() == old(
            store,
        ).items_model() && (r.body matches Body::Message(m) && m@ == "Invalid ObjectId"@),
        valid_id_encoding(path_segment@) && old(store).contains_id(decoded_id(path_segment@))
            ==> r.status == 200 && (exists|j: int|
            0 <= j < old(store).items_model().len() && (#[trigger] old(
                store,
            ).items_model()[j]).id == decoded_id(path_segment@) && final(store).items_model()
                == old(store).items_model().remove(j)) && (r.body matches Body::JsonMessage(m) && m@
            == "Item deleted successfully"@),
        valid_id_encoding(path_segment@) && !old(store).contains_id(decoded_id(path_segment@))
            ==> r.status == 404 && final(store).items_model() == old(store).items_model() && (r.body
            matches Body::JsonMessage(m) && m@ == "Item not found"@),
        valid_id_encoding(path_segment@) ==> !final(store).contains_id(decoded_id(path_segment@)),
{
    match ItemId::parse_str(path_segment) {
        None => invalid_id_reply(),
        Some(id) => {
            let count = store.delete_one(&id);
            delete_outcome_reply(Some(count))
        },
    }
}

} // verus!
