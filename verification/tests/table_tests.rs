use subway_core::model::{Author, AuthorId, Body, Post, Title};
use subway_core::table::InMemoryTable;

fn post(author: u128, title: &str, body: &str) -> Post {
    Post::new(
        AuthorId(author),
        Title(title.to_string()),
        Body(body.to_string()),
    )
}

#[test]
fn insert_and_get_posts() {
    let mut table: InMemoryTable<Post> = InMemoryTable::new();
    let keys = table.insert(vec![post(7, "first", "one"), post(7, "second", "two")]);
    assert_eq!(keys.len(), 2);
    let row = table.get(keys[0]).expect("row should be present");
    assert_eq!(row.title.0, "first");
    assert_eq!(row.author_id, AuthorId(7));
    let row = table.get(keys[1]).expect("row should be present");
    assert_eq!(row.title.0, "second");
}

#[test]
fn get_missing_key_returns_nothing() {
    let mut table: InMemoryTable<Post> = InMemoryTable::new();
    let keys = table.insert(vec![post(1, "only", "row")]);
    assert!(table.get(keys[0].wrapping_add(1)).is_none());
}

#[test]
fn list_respects_the_limit() {
    let mut table: InMemoryTable<Post> = InMemoryTable::new();
    table.insert(vec![
        post(1, "a", "1"),
        post(1, "b", "2"),
        post(1, "c", "3"),
    ]);
    assert_eq!(table.list(2).len(), 2);
    assert_eq!(table.list(10).len(), 3);
    assert_eq!(table.list(0).len(), 0);
}

#[test]
fn fresh_posts_get_distinct_identifiers() {
    let first = post(1, "x", "y");
    let second = post(1, "x", "y");
    assert_ne!(first.post_id.value(), second.post_id.value());
}

#[test]
fn authors_table_keyed_by_author_id() {
    let mut table: InMemoryTable<Author> = InMemoryTable::new();
    let alice = Author::new("alice".to_string());
    let alice_id = alice.id();
    let key = table.insert_one(alice);
    assert_eq!(key, alice_id);
    let row = table.get(alice_id).expect("author should be present");
    assert_eq!(row.name(), "alice");
    assert_eq!(row.id(), alice_id);
}
