//! The article store: drafts, explicit publication, and the public
//! listing that shows published articles only.

use elide::articles::{ArticleData, ArticleStore};
use elide::StoreError;

fn draft(store: &mut ArticleStore, title: &str, body: &str) -> u128 {
    store
        .create(ArticleData { title: title.to_string(), body: body.to_string() })
        .expect("fresh identifier")
        .uuid
}

#[test]
fn created_articles_start_unpublished() {
    let mut store = ArticleStore::new();
    let id = draft(&mut store, "Title", "Body");
    assert!(store.get_published().is_empty());
    let article = store.publish(id).expect("identifier present");
    assert!(article.published);
    let listed = store.get_published();
    assert_eq!(listed.len(), 1);
    assert_eq!(listed[0].title, "Title");
}

#[test]
fn update_keeps_publication_state() {
    let mut store = ArticleStore::new();
    let id = draft(&mut store, "Old", "Old body");
    store.publish(id).unwrap();
    let updated = store.update(id, "New".to_string(), "New body".to_string()).unwrap();
    assert_eq!(updated.title, "New");
    assert_eq!(updated.body, "New body");
    assert!(updated.published);
}

#[test]
fn delete_removes_article() {
    let mut store = ArticleStore::new();
    let id = draft(&mut store, "Gone", "Soon");
    store.publish(id).unwrap();
    let removed = store.delete(id).expect("identifier present");
    assert_eq!(removed.title, "Gone");
    assert!(store.get_published().is_empty());
    assert_eq!(store.delete(id).unwrap_err(), StoreError::NotFound);
}

#[test]
fn unknown_identifiers_are_not_found() {
    let mut store = ArticleStore::new();
    assert_eq!(store.publish(5).unwrap_err(), StoreError::NotFound);
    assert_eq!(store.update(5, "t".to_string(), "b".to_string()).unwrap_err(),
        StoreError::NotFound);
}

#[test]
fn published_listing_keeps_order() {
    let mut store = ArticleStore::new();
    let a = draft(&mut store, "A", "1");
    let _b = draft(&mut store, "B", "2");
    let c = draft(&mut store, "C", "3");
    store.publish(a).unwrap();
    store.publish(c).unwrap();
    let listed = store.get_published();
    assert_eq!(listed.len(), 2);
    assert_eq!(listed[0].title, "A");
    assert_eq!(listed[1].title, "C");
}
