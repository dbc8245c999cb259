use item_service::http::{add_outcome_reply, delete_outcome_reply, edit_outcome_reply,
    invalid_id_reply, read_outcome_reply, Body};
use item_service::item::{update_doc_of, Item, StoredItem};
use item_service::oid::ItemId;
use item_service::router::{route, Method, Route};
use item_service::store::{Store, StoreError};

#[test]
fn parse_accepts_both_letter_cases() {
    let lower = ItemId::parse_str("0123456789abcdef01234567").unwrap();
    let upper = ItemId::parse_str("0123456789ABCDEF01234567").unwrap();
    assert!(lower.eq_id(&upper));
    assert_eq!(upper.to_hex(), "0123456789abcdef01234567");
}

#[test]
fn parse_rejects_malformed_encodings() {
    assert!(ItemId::parse_str("").is_none());
    assert!(ItemId::parse_str("zzz").is_none());
    assert!(ItemId::parse_str("not-an-id").is_none());
    assert!(ItemId::parse_str("0123456789abcdef0123456").is_none());
    assert!(ItemId::parse_str("0123456789abcdef012345678").is_none());
    assert!(ItemId::parse_str("0123456789abcdef0123456g").is_none());
    assert!(ItemId::parse_str("0123456789abcdef0123456é").is_none());
    assert!(ItemId::parse_str("éééééééééééééééééééééééé").is_none());
}

#[test]
fn parse_decodes_the_hex_pairs() {
    let id = ItemId::parse_str("000102030405060708090a0b").unwrap();
    assert_eq!(id.as_bytes().as_slice(), &[0u8, 1, 2, 3, 4, 5, 6, 7, 8, 9, 10, 11]);
}

#[test]
fn encoding_round_trips() {
    let bytes: Vec<u8> = vec![0, 255, 16, 32, 64, 128, 1, 2, 3, 4, 5, 250];
    let id = ItemId::from_bytes(bytes.clone());
    let hex = id.to_hex();
    assert_eq!(hex, "00ff102040800102030405fa");
    let back = ItemId::parse_str(&hex).unwrap();
    assert!(back.eq_id(&id));
    assert_eq!(back.as_bytes().as_slice(), bytes.as_slice());
}

#[test]
fn create_failure_reply_carries_the_error_text() {
    let reply = add_outcome_reply(Err(String::from("no route to the store")));
    assert_eq!(reply.status, 500);
    match reply.body {
        Body::JsonMessage(m) => assert_eq!(m, "Failed to add item: no route to the store"),
        _ => panic!("create failure must be a JSON message"),
    }
}

#[test]
fn edit_failure_reply_carries_the_error_text() {
    let reply = edit_outcome_reply(Err(String::from("timed out")));
    assert_eq!(reply.status, 500);
    match reply.body {
        Body::JsonMessage(m) => assert_eq!(m, "Failed to edit item: timed out"),
        _ => panic!("edit failure must be a JSON message"),
    }
}

#[test]
fn read_failure_reply_is_empty() {
    let reply = read_outcome_reply(None);
    assert_eq!(reply.status, 500);
    assert!(matches!(reply.body, Body::Empty));
}

#[test]
fn delete_outcomes_map_to_statuses() {
    assert_eq!(delete_outcome_reply(Some(1)).status, 200);
    assert_eq!(delete_outcome_reply(Some(2)).status, 200);
    assert_eq!(delete_outcome_reply(Some(0)).status, 404);
    assert_eq!(delete_outcome_reply(None).status, 404);
    assert_eq!(invalid_id_reply().status, 400);
}

#[test]
fn update_document_drops_the_identifier() {
    let doc = update_doc_of(Item {
        id: ItemId::parse_str("0123456789abcdef01234567"),
        name: String::from("pencil"),
        description: String::from("sharp"),
    });
    assert_eq!(doc.name, "pencil");
    assert_eq!(doc.description, "sharp");
}

#[test]
fn routing_table_matches_the_four_routes() {
    assert!(matches!(route(&Method::Post, "/add"), Route::Add));
    assert!(matches!(route(&Method::Get, "/"), Route::ReadAll));
    assert!(matches!(route(&Method::Post, "/edit"), Route::Edit));
    match route(&Method::Delete, "/delete/abc") {
        Route::DeleteItem(seg) => assert_eq!(seg, "abc"),
        _ => panic!("a delete path must carry its segment"),
    }
}

#[test]
fn unmatched_requests_are_unrouted() {
    assert!(matches!(route(&Method::Get, "/add"), Route::NotFound));
    assert!(matches!(route(&Method::Post, "/"), Route::NotFound));
    assert!(matches!(route(&Method::Delete, "/delete"), Route::NotFound));
    assert!(matches!(route(&Method::Delete, "/add"), Route::NotFound));
    assert!(matches!(route(&Method::Post, "/unknown"), Route::NotFound));
}

#[test]
fn duplicate_insert_is_refused_and_changes_nothing() {
    let mut store = Store::new();
    let id = ItemId::parse_str("0123456789abcdef01234567").unwrap();
    let first = StoredItem {
        id: id.clone_id(),
        name: String::from("pen"),
        description: String::from("blue pen"),
    };
    assert!(store.insert_one(first).is_ok());
    let second = StoredItem {
        id: id.clone_id(),
        name: String::from("other"),
        description: String::from("other"),
    };
    match store.insert_one(second) {
        Err(StoreError::DuplicateId) => {},
        _ => panic!("a duplicate identifier must be refused"),
    }
    let items = store.find_all();
    assert_eq!(items.len(), 1);
    assert_eq!(items[0].name, "pen");
}

#[test]
fn delete_one_reports_the_deleted_count() {
    let mut store = Store::new();
    let id = ItemId::parse_str("0123456789abcdef01234567").unwrap();
    let item = StoredItem {
        id: id.clone_id(),
        name: String::from("pen"),
        description: String::from("blue pen"),
    };
    assert!(store.insert_one(item).is_ok());
    assert_eq!(store.delete_one(&id), 1);
    assert_eq!(store.delete_one(&id), 0);
}
