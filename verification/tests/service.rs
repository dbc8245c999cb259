use item_service::handlers::{add_item, add_item_generated, delete_item, edit_item, get_all_items};
use item_service::http::Body;
use item_service::item::Item;
use item_service::oid::ItemId;
use item_service::store::Store;

fn id_of(hex: &str) -> ItemId {
    match ItemId::parse_str(hex) {
        Some(id) => id,
        None => panic!("expected a valid identifier encoding"),
    }
}

fn listed(store: &Store) -> Vec<(String, String, String)> {
    let reply = get_all_items(store);
    assert_eq!(reply.status, 200);
    match reply.body {
        Body::Items(items) => items
            .iter()
            .map(|it| (it.id.to_hex(), it.name.clone(), it.description.clone()))
            .collect(),
        _ => panic!("read-all success must carry the items"),
    }
}

const ID_A: &str = "0123456789abcdef01234567";

#[test]
fn scenario_create_then_read() {
    let mut store = Store::new();
    let reply = add_item(
        &mut store,
        String::from("pen"),
        String::from("blue pen"),
        id_of(ID_A),
    );
    assert_eq!(reply.status, 200);
    match reply.body {
        Body::Message(m) => assert_eq!(m, "Item added successfully"),
        _ => panic!("create success must be a plain message"),
    }
    let items = listed(&store);
    assert_eq!(items.len(), 1);
    assert_eq!(items[0].0, ID_A);
    assert_eq!(items[0].1, "pen");
    assert_eq!(items[0].2, "blue pen");
    assert_eq!(items[0].0.len(), 24);
}

#[test]
fn scenario_edit_changes_fields_only() {
    let mut store = Store::new();
    add_item(&mut store, String::from("pen"), String::from("blue pen"), id_of(ID_A));
    let reply = edit_item(
        &mut store,
        Item {
            id: Some(id_of(ID_A)),
            name: String::from("pencil"),
            description: String::from("blue pen"),
        },
    );
    assert_eq!(reply.status, 200);
    match reply.body {
        Body::Message(m) => assert_eq!(m, "Item edited successfully"),
        _ => panic!("edit success must be a plain message"),
    }
    let items = listed(&store);
    assert_eq!(items.len(), 1);
    assert_eq!(items[0].0, ID_A);
    assert_eq!(items[0].1, "pencil");
    assert_eq!(items[0].2, "blue pen");
}

#[test]
fn scenario_delete_then_read() {
    let mut store = Store::new();
    add_item(&mut store, String::from("pen"), String::from("blue pen"), id_of(ID_A));
    let reply = delete_item(&mut store, ID_A);
    assert_eq!(reply.status, 200);
    match reply.body {
        Body::JsonMessage(m) => assert_eq!(m, "Item deleted successfully"),
        _ => panic!("delete success must be a JSON message"),
    }
    assert_eq!(listed(&store).len(), 0);
}

#[test]
fn scenario_second_delete_is_not_found() {
    let mut store = Store::new();
    add_item(&mut store, String::from("pen"), String::from("blue pen"), id_of(ID_A));
    assert_eq!(delete_item(&mut store, ID_A).status, 200);
    let reply = delete_item(&mut store, ID_A);
    assert_eq!(reply.status, 404);
    match reply.body {
        Body::JsonMessage(m) => assert_eq!(m, "Item not found"),
        _ => panic!("delete miss must be a JSON message"),
    }
}

#[test]
fn scenario_invalid_identifier_is_rejected() {
    let mut store = Store::new();
    add_item(&mut store, String::from("pen"), String::from("blue pen"), id_of(ID_A));
    let reply = delete_item(&mut store, "zzz");
    assert_eq!(reply.status, 400);
    match reply.body {
        Body::Message(m) => assert_eq!(m, "Invalid ObjectId"),
        _ => panic!("the rejection must be a plain message"),
    }
    assert_eq!(listed(&store).len(), 1);
}

#[test]
fn create_ignores_any_submitted_identifier_field() {
    // The create handler takes only name and description; an id in the
    // payload never reaches the store.
    let mut store = Store::new();
    let submitted = Item {
        id: Some(id_of("ffffffffffffffffffffffff")),
        name: String::from("pen"),
        description: String::from("blue pen"),
    };
    add_item(&mut store, submitted.name, submitted.description, id_of(ID_A));
    let items = listed(&store);
    assert_eq!(items.len(), 1);
    assert_eq!(items[0].0, ID_A);
}

#[test]
fn edit_of_absent_identifier_still_reports_success() {
    let mut store = Store::new();
    add_item(&mut store, String::from("pen"), String::from("blue pen"), id_of(ID_A));
    let reply = edit_item(
        &mut store,
        Item {
            id: Some(id_of("aaaaaaaaaaaaaaaaaaaaaaaa")),
            name: String::from("pencil"),
            description: String::from("red"),
        },
    );
    assert_eq!(reply.status, 200);
    let items = listed(&store);
    assert_eq!(items.len(), 1);
    assert_eq!(items[0].1, "pen");
}

#[test]
fn edit_without_identifier_matches_nothing() {
    let mut store = Store::new();
    add_item(&mut store, String::from("pen"), String::from("blue pen"), id_of(ID_A));
    let reply = edit_item(
        &mut store,
        Item { id: None, name: String::from("pencil"), description: String::from("red") },
    );
    assert_eq!(reply.status, 200);
    let items = listed(&store);
    assert_eq!(items[0].1, "pen");
}

#[test]
fn edit_touches_only_the_matched_item() {
    let mut store = Store::new();
    add_item(&mut store, String::from("pen"), String::from("blue pen"), id_of(ID_A));
    add_item(
        &mut store,
        String::from("book"),
        String::from("red book"),
        id_of("89abcdef0123456789abcdef"),
    );
    edit_item(
        &mut store,
        Item {
            id: Some(id_of(ID_A)),
            name: String::from("pencil"),
            description: String::from("sharp"),
        },
    );
    let items = listed(&store);
    assert_eq!(items.len(), 2);
    assert_eq!(items[0].0, ID_A);
    assert_eq!(items[0].1, "pencil");
    assert_eq!(items[0].2, "sharp");
    assert_eq!(items[1].1, "book");
    assert_eq!(items[1].2, "red book");
}

#[test]
fn delete_removes_only_the_matched_item() {
    let mut store = Store::new();
    add_item(&mut store, String::from("pen"), String::from("blue pen"), id_of(ID_A));
    add_item(
        &mut store,
        String::from("book"),
        String::from("red book"),
        id_of("89abcdef0123456789abcdef"),
    );
    assert_eq!(delete_item(&mut store, ID_A).status, 200);
    let items = listed(&store);
    assert_eq!(items.len(), 1);
    assert_eq!(items[0].1, "book");
}

#[test]
fn read_lists_creates_in_order() {
    let mut store = Store::new();
    add_item(&mut store, String::from("a"), String::from("1"), id_of(ID_A));
    add_item(&mut store, String::from("b"), String::from("2"), id_of("89abcdef0123456789abcdef"));
    add_item(&mut store, String::from("c"), String::from("3"), id_of("ffffffffffffffffffffffff"));
    let items = listed(&store);
    assert_eq!(items.len(), 3);
    assert_eq!(items[0].1, "a");
    assert_eq!(items[1].1, "b");
    assert_eq!(items[2].1, "c");
}

#[test]
fn generated_create_stores_the_fields() {
    let mut store = Store::new();
    let reply = add_item_generated(&mut store, String::from("pen"), String::from("blue pen"));
    assert_eq!(reply.status, 200);
    let items = listed(&store);
    assert_eq!(items.len(), 1);
    assert_eq!(items[0].0.len(), 24);
    assert_eq!(items[0].1, "pen");
    assert_eq!(items[0].2, "blue pen");
}

#[test]
fn successive_creates_assign_distinct_identifiers() {
    let mut store = Store::new();
    add_item_generated(&mut store, String::from("pen"), String::from("blue pen"));
    add_item_generated(&mut store, String::from("book"), String::from("red book"));
    let items = listed(&store);
    assert_eq!(items.len(), 2);
    assert_ne!(items[0].0, items[1].0);
}

#[test]
fn generated_identifiers_differ() {
    let a = item_service::oid::generate_id();
    let b = item_service::oid::generate_id();
    assert!(!a.eq_id(&b));
    assert_eq!(a.to_hex().len(), 24);
}
