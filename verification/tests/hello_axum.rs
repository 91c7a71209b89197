use axum_services::hello_axum::handlers::{hello, CreateItem};
use axum_services::hello_axum::state::ItemStore;

#[test]
fn test_hello_and_create_item() {
    let message = hello("Sivaji");
    assert!(message.contains("Sivaji"));
}

#[test]
fn hello_greets_by_name() {
    assert_eq!(hello("Sivaji"), "Hello, Sivaji");
    assert_eq!(hello(""), "Hello, ");
}

#[test]
fn items_are_numbered_from_one_in_creation_order() {
    let mut store = ItemStore::new();
    assert!(store.list_items().is_empty());
    let a: u64 = store.create_item(CreateItem { name: "pen".to_string(), description: None });
    let b: u64 = store.create_item(CreateItem {
        name: "ink".to_string(),
        description: Some("blue".to_string()),
    });
    assert_eq!(a, 1);
    assert_eq!(b, 2);
    let items = store.list_items();
    assert_eq!(items.len(), 2);
    assert_eq!(items[0].id, 1);
    assert_eq!(items[0].name, "pen");
    assert_eq!(items[0].description, None);
    assert_eq!(items[1].id, 2);
    assert_eq!(items[1].name, "ink");
    assert_eq!(items[1].description.as_deref(), Some("blue"));
}

#[test]
fn listing_leaves_the_items_in_place() {
    let mut store = ItemStore::new();
    store.create_item(CreateItem { name: "a".to_string(), description: None });
    let first = store.list_items();
    let second = store.list_items();
    assert_eq!(first.len(), 1);
    assert_eq!(second.len(), 1);
    assert_eq!(second[0].name, "a");
}
