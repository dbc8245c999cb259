//! The laws of the identifier lifecycle and of the four operations, stated
//! over the store model and proved once and for all. Each proof function's
//! `requires` holds exactly what the handlers' own contracts establish.

use vstd::prelude::*;
use crate::item::ItemModel;
use crate::store::Store;

verus! {

/// Identifier uniqueness: an identifier assigned by a successful create is
/// distinct from every identifier assigned before it — also from those of
/// items that have since been deleted. `pre` is the store before the first
/// create in question, `mid` the store it leaves behind; each create's
/// identifier is fresh for the assigned set it meets, as `add_item`
/// requires and ensures.
pub proof fn lemma_identifier_uniqueness(pre: Store, mid: Store, id1: Seq<u8>, id2: Seq<u8>)
    requires
        !pre.assigned_ids().contains(id1),
        mid.assigned_ids() == pre.assigned_ids().insert(id1),
        !mid.assigned_ids().contains(id2),
    ensures
        id2 != id1,
        !pre.assigned_ids().contains(id2),
{
    assert(mid.assigned_ids().contains(id1));
}

/// The collection's contents after a run of successful creates, each
/// appending the item it persisted — the step `add_item` ensures.
pub open spec fn after_creates(init: Seq<ItemModel>, created: Seq<ItemModel>) -> Seq<ItemModel>
    decreases created.len(),
{
    if created.len() == 0 {
        init
    } else {
        after_creates(init.push(created[0]), created.drop_first())
    }
}

/// Read completeness: after `N` successful, non-overlapping creates with no
/// intervening deletes, a full read returns exactly `N` more items — the
/// created ones, in order, each carrying the fields submitted at creation
/// and, each identifier being twelve bytes, a non-empty identifier.
pub proof fn lemma_read_completeness(init: Seq<ItemModel>, created: Seq<ItemModel>)
    requires
        forall|j: int| 0 <= j < created.len() ==> (#[trigger] created[j]).id.len() == 12,
    ensures
        after_creates(init, created).len() == init.len() + created.len(),
        forall|j: int| 0 <= j < init.len() ==> #[trigger] after_creates(init, created)[j]
            == init[j],
        forall|j: int|
            0 <= j < created.len() ==> #[trigger] after_creates(init, created)[init.len() + j]
                == created[j],
        forall|j: int|
            0 <= j < created.len() ==> (#[trigger] after_creates(init, created)[init.len()
                + j]).id.len() > 0,
    decreases created.len(),
{
    if created.len() > 0 {
        let grown = init.push(created[0]);
        lemma_read_completeness(grown, created.drop_first());
        assert forall|j: int| 0 <= j < init.len() implies #[trigger] after_creates(init, created)[j]
            == init[j] by {
            assert(after_creates(init, created)[j] == after_creates(grown, created.drop_first())[j]);
            assert(grown[j] == init[j]);
        }
        assert forall|j: int| 0 <= j < created.len() implies #[trigger] after_creates(
            init,
            created,
        )[init.len() + j] == created[j] by {
            if j == 0 {
                assert(after_creates(init, created)[init.len() as int] == after_creates(
                    grown,
                    created.drop_first(),
                )[init.len() as int]);
                assert(grown[init.len() as int] == created[0]);
            } else {
                assert(after_creates(grown, created.drop_first())[grown.len() + (j - 1)]
                    == created.drop_first()[j - 1]);
                assert(created.drop_first()[j - 1] == created[j]);
            }
        }
    }
}

/// Update is a partial merge: an update filtered on a stored identifier `x`
/// changes only the matched document's `name` and `description`; its
/// identifier is unchanged, it stays at its place, `x` is still stored
/// afterwards, and no other document — and no identifier anywhere — is
/// touched. The hypotheses are what `edit_item` ensures of a store it
/// updates.
pub proof fn lemma_update_partial_merge(
    pre: Store,
    post: Store,
    x: Seq<u8>,
    name: Seq<char>,
    description: Seq<char>,
)
    requires
        pre.wf(),
        pre.contains_id(x),
        post.items_model().len() == pre.items_model().len(),
        forall|j: int|
            0 <= j < pre.items_model().len() && (#[trigger] pre.items_model()[j]).id == x
                ==> post.items_model()[j] == (ItemModel {
                id: pre.items_model()[j].id,
                name: name,
                description: description,
            }),
        forall|j: int|
            0 <= j < pre.items_model().len() && (#[trigger] pre.items_model()[j]).id != x
                ==> post.items_model()[j] == pre.items_model()[j],
    ensures
        post.contains_id(x),
        forall|j: int|
            0 <= j < post.items_model().len() ==> (#[trigger] post.items_model()[j]).id
                == pre.items_model()[j].id,
        forall|j: int|
            0 <= j < pre.items_model().len() && (#[trigger] pre.items_model()[j]).id == x
                ==> post.items_model()[j].name == name && post.items_model()[j].description
                == description,
{
    let w = choose|j: int|
        0 <= j < pre.items_model().len() && (#[trigger] pre.items_model()[j]).id == x;
    assert(post.items_model()[w].id == x);
    assert forall|j: int|
        0 <= j < post.items_model().len() implies (#[trigger] post.items_model()[j]).id
        == pre.items_model()[j].id by {
        assert(0 <= j < pre.items_model().len());
        if pre.items_model()[j].id == x {
        } else {
        }
    }
}

/// Delete removes exactly one: deleting a stored identifier `x` shortens the
/// collection by one, leaves `x` no longer stored — so that a second delete
/// of `x` deletes nothing — and keeps every other identifier stored. The
/// hypotheses are what `delete_one` ensures when `x` was present, with `j`
/// the matched position.
pub proof fn lemma_delete_removes_exactly_one(pre: Store, post: Store, x: Seq<u8>, j: int)
    requires
        pre.wf(),
        0 <= j < pre.items_model().len(),
        pre.items_model()[j].id == x,
        post.items_model() == pre.items_model().remove(j),
    ensures
        post.items_model().len() == pre.items_model().len() - 1,
        !post.contains_id(x),
        forall|y: Seq<u8>| y != x && pre.contains_id(y) ==> post.contains_id(y),
        forall|y: Seq<u8>| post.contains_id(y) ==> pre.contains_id(y),
{
    pre.items_model().remove_ensures(j);
    assert forall|k: int|
        0 <= k < post.items_model().len() implies (#[trigger] post.items_model()[k]).id != x by {
        if k < j {
            assert(post.items_model()[k] == pre.items_model()[k]);
        } else {
            assert(post.items_model()[k] == pre.items_model()[k + 1]);
        }
    }
    assert forall|y: Seq<u8>| y != x && pre.contains_id(y) implies post.contains_id(y) by {
        let k = choose|k: int|
            0 <= k < pre.items_model().len() && (#[trigger] pre.items_model()[k]).id == y;
        if k < j {
            assert(post.items_model()[k] == pre.items_model()[k]);
            assert((#[trigger] post.items_model()[k]).id == y);
        } else {
            assert(k > j);
            assert(post.items_model()[k - 1] == pre.items_model()[k]);
            assert((#[trigger] post.items_model()[k - 1]).id == y);
        }
    }
    assert forall|y: Seq<u8>| post.contains_id(y) implies pre.contains_id(y) by {
        let k = choose|k: int|
            0 <= k < post.items_model().len() && (#[trigger] post.items_model()[k]).id == y;
        if k < j {
            assert(post.items_model()[k] == pre.items_model()[k]);
            assert((#[trigger] pre.items_model()[k]).id == y);
        } else {
            assert(post.items_model()[k] == pre.items_model()[k + 1]);
            assert((#[trigger] pre.items_model()[k + 1]).id == y);
        }
    }
}

} // verus!
