//! The link registry's storage-level guarantees: slug uniqueness under
//! racing creations, owner scoping that hides foreign links, orphan
//! immutability, and the scheduled sweep's exact scope.

use elide::links::NewRoute;
use elide::registry::LinkRegistry;
use elide::sweeper::sweep_expired_now;
use elide::StoreError;

fn owned(reg: &mut LinkRegistry, slug: &str, target: &str, owner: u128, now: i64) -> u128 {
    reg.create(
        NewRoute { slug: slug.to_string(), target: target.to_string(), active: None },
        Some(owner),
        now,
    )
    .expect("fresh slug")
    .id
}

#[test]
fn create_then_read_by_slug() {
    let mut reg = LinkRegistry::new();
    let link = reg
        .create(
            NewRoute {
                slug: "foo".to_string(),
                target: "https://example.com".to_string(),
                active: None,
            },
            None,
            1000,
        )
        .expect("fresh slug");
    assert_eq!(link.slug, "foo");
    assert_eq!(link.target, "https://example.com");
    assert_eq!(link.creator_id, None);
    assert!(link.active);
    assert_eq!(link.created_at, 1000);
    let read = reg.read_by_slug(&"foo".to_string()).expect("slug present");
    assert_eq!(read.id, link.id);
    assert_eq!(read.slug, "foo");
    assert_eq!(read.target, "https://example.com");
}

#[test]
fn duplicate_slug_creation_conflicts() {
    let mut reg = LinkRegistry::new();
    let first = reg.create(NewRoute { slug: "dup".to_string(), target: "https://a.example".to_string(), active: None }, None, 1);
    assert!(first.is_ok());
    // A racing second creation reaches storage after the first: refused.
    let second = reg.create(NewRoute { slug: "dup".to_string(), target: "https://b.example".to_string(), active: None }, Some(7), 2);
    assert_eq!(second.unwrap_err(), StoreError::Conflict);
    // Only the first creation took effect.
    let read = reg.read_by_slug(&"dup".to_string()).expect("slug present");
    assert_eq!(read.target, "https://a.example");
}

#[test]
fn slug_available_is_a_probe_not_a_reservation() {
    let mut reg = LinkRegistry::new();
    assert!(reg.slug_available(&"s".to_string()));
    owned(&mut reg, "s", "https://t.example", 1, 1);
    assert!(!reg.slug_available(&"s".to_string()));
    // The probe said "taken"; a create must still be the authority.
    let second = reg.create(NewRoute { slug: "s".to_string(), target: "x".to_string(), active: None }, None, 2);
    assert_eq!(second.unwrap_err(), StoreError::Conflict);
}

#[test]
fn update_by_wrong_owner_is_not_found() {
    let mut reg = LinkRegistry::new();
    let id = owned(&mut reg, "mine", "https://t.example", 10, 1);
    // The link exists, but another owner sees plain NotFound.
    let r = reg.update(id, 11, "mine".to_string(), "https://evil.example".to_string(), None);
    assert_eq!(r.unwrap_err(), StoreError::NotFound);
    // Untouched.
    let read = reg.read_by_slug(&"mine".to_string()).unwrap();
    assert_eq!(read.target, "https://t.example");
}

#[test]
fn delete_by_wrong_owner_is_not_found() {
    let mut reg = LinkRegistry::new();
    let id = owned(&mut reg, "mine2", "https://t.example", 10, 1);
    let r = reg.delete(id, 11);
    assert_eq!(r.unwrap_err(), StoreError::NotFound);
    assert!(reg.read_by_slug(&"mine2".to_string()).is_ok());
}

#[test]
fn orphan_is_immutable_through_owner_scoped_path() {
    let mut reg = LinkRegistry::new();
    let link = reg
        .create(
            NewRoute {
                slug: "orphan".to_string(),
                target: "https://t.example".to_string(),
                active: None,
            },
            None,
            1,
        )
        .unwrap();
    assert_eq!(reg.update(link.id, 10, "o2".to_string(), "x".to_string(), None).unwrap_err(),
        StoreError::NotFound);
    assert_eq!(reg.delete(link.id, 10).unwrap_err(), StoreError::NotFound);
    assert!(reg.read_by_slug(&"orphan".to_string()).is_ok());
}

#[test]
fn update_by_owner_reissues_fields() {
    let mut reg = LinkRegistry::new();
    let id = owned(&mut reg, "old-slug", "https://old.example", 10, 5);
    let updated = reg
        .update(id, 10, "new-slug".to_string(), "https://new.example".to_string(), Some(false))
        .expect("owner matches");
    assert_eq!(updated.id, id);
    assert_eq!(updated.slug, "new-slug");
    assert_eq!(updated.target, "https://new.example");
    assert!(!updated.active);
    assert_eq!(updated.created_at, 5);
    assert!(reg.read_by_slug(&"old-slug".to_string()).is_err());
    assert!(reg.read_by_slug(&"new-slug".to_string()).is_ok());
}

#[test]
fn update_without_active_keeps_the_flag() {
    let mut reg = LinkRegistry::new();
    let off = reg
        .create(
            NewRoute { slug: "dim".to_string(), target: "t".to_string(), active: Some(false) },
            Some(4),
            1,
        )
        .unwrap();
    // An update that leaves the flag absent re-issues only slug and
    // target: the link stays switched off.
    let updated = reg.update(off.id, 4, "dim".to_string(), "t2".to_string(), None).unwrap();
    assert!(!updated.active);
    // Supplying the flag switches it.
    let updated = reg.update(off.id, 4, "dim".to_string(), "t2".to_string(), Some(true)).unwrap();
    assert!(updated.active);
    let updated = reg.update(off.id, 4, "dim".to_string(), "t2".to_string(), None).unwrap();
    assert!(updated.active);
}

#[test]
fn update_to_taken_slug_conflicts() {
    let mut reg = LinkRegistry::new();
    owned(&mut reg, "first", "https://a.example", 10, 1);
    let id2 = owned(&mut reg, "second", "https://b.example", 10, 1);
    let r = reg.update(id2, 10, "first".to_string(), "https://b.example".to_string(), None);
    assert_eq!(r.unwrap_err(), StoreError::Conflict);
}

#[test]
fn update_unknown_id_is_not_found() {
    let mut reg = LinkRegistry::new();
    let r = reg.update(424242, 10, "a".to_string(), "b".to_string(), None);
    assert_eq!(r.unwrap_err(), StoreError::NotFound);
}

#[test]
fn delete_by_owner_removes() {
    let mut reg = LinkRegistry::new();
    let id = owned(&mut reg, "gone", "https://t.example", 10, 1);
    let removed = reg.delete(id, 10).expect("owner matches");
    assert_eq!(removed.id, id);
    assert!(reg.read_by_slug(&"gone".to_string()).is_err());
    assert_eq!(reg.delete(id, 10).unwrap_err(), StoreError::NotFound);
}

#[test]
fn list_by_owner_filters_and_keeps_order() {
    let mut reg = LinkRegistry::new();
    owned(&mut reg, "a", "https://a.example", 1, 1);
    owned(&mut reg, "b", "https://b.example", 2, 1);
    owned(&mut reg, "c", "https://c.example", 1, 1);
    reg.create(NewRoute { slug: "d".to_string(), target: "https://d.example".to_string(), active: None }, None, 1).unwrap();
    let mine = reg.list_by_owner(1);
    assert_eq!(mine.len(), 2);
    assert_eq!(mine[0].slug, "a");
    assert_eq!(mine[1].slug, "c");
    assert!(reg.list_by_owner(3).is_empty());
}

#[test]
fn read_by_id_is_unscoped() {
    let mut reg = LinkRegistry::new();
    let id = owned(&mut reg, "by-id", "https://t.example", 10, 1);
    assert_eq!(reg.read_by_id(id).unwrap().slug, "by-id");
    assert_eq!(reg.read_by_id(id ^ 1).unwrap_err(), StoreError::NotFound);
}

#[test]
fn create_active_defaults() {
    let mut reg = LinkRegistry::new();
    let on = reg.create(NewRoute { slug: "on".to_string(), target: "t".to_string(), active: None }, None, 1).unwrap();
    assert!(on.active);
    let off = reg.create(NewRoute { slug: "off".to_string(), target: "t".to_string(), active: Some(false) }, None, 1).unwrap();
    assert!(!off.active);
}

#[test]
fn sweep_removes_only_expired_orphans() {
    let mut reg = LinkRegistry::new();
    // An orphan and an owned link of the very same age, plus a young orphan.
    reg.create(NewRoute { slug: "old-orphan".to_string(), target: "t".to_string(), active: None }, None, 100).unwrap();
    reg.create(NewRoute { slug: "old-owned".to_string(), target: "t".to_string(), active: None }, Some(1), 100).unwrap();
    reg.create(NewRoute { slug: "new-orphan".to_string(), target: "t".to_string(), active: None }, None, 300).unwrap();
    let removed = reg.remove_expired_orphans(200);
    assert_eq!(removed, 1);
    assert!(reg.read_by_slug(&"old-orphan".to_string()).is_err());
    assert!(reg.read_by_slug(&"old-owned".to_string()).is_ok());
    assert!(reg.read_by_slug(&"new-orphan".to_string()).is_ok());
    // Idempotent: a second sweep at the same cutoff removes nothing.
    assert_eq!(reg.remove_expired_orphans(200), 0);
}

#[test]
fn sweep_no_op_when_nothing_matches() {
    let mut reg = LinkRegistry::new();
    reg.create(NewRoute { slug: "kept".to_string(), target: "t".to_string(), active: None }, Some(5), 0).unwrap();
    assert_eq!(reg.remove_expired_orphans(1000), 0);
    assert!(reg.read_by_slug(&"kept".to_string()).is_ok());
}

#[test]
fn sweep_against_the_clock_keeps_owned_links() {
    let mut reg = LinkRegistry::new();
    // An owned link from the distant past survives any cutoff.
    reg.create(NewRoute { slug: "ancient".to_string(), target: "t".to_string(), active: None }, Some(9), 1).unwrap();
    // An orphan far in the past falls to any reasonable clock reading.
    reg.create(NewRoute { slug: "doomed".to_string(), target: "t".to_string(), active: None }, None, 1).unwrap();
    let removed = sweep_expired_now(&mut reg, 86400);
    assert_eq!(removed, 1);
    assert!(reg.read_by_slug(&"ancient".to_string()).is_ok());
    assert!(reg.read_by_slug(&"doomed".to_string()).is_err());
}
