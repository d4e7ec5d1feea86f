//! The dispatch bridge's backpressure and dispatch discipline, and the
//! execution of typed operations against storage.

use elide::bridge::{
    apply_operation, BridgeError, CheckUserNameExists, CreateRoute, CreateUser, DispatchBridge,
    GetMyRoutes, GetUserByUsername, Operation, Outcome, ReadRouteBySlug, RouteSlugAvailable,
    Storage, UsernameAvailable,
};

fn create_op(slug: &str, target: &str, creator: Option<u128>) -> Operation {
    Operation::CreateRoute(CreateRoute {
        slug: slug.to_string(),
        creator_id: creator,
        target: target.to_string(),
        active: None,
    })
}

#[test]
fn pool_bound_and_queueing() {
    // Pool of 2 workers over a queue of 3 slots.
    let mut bridge: DispatchBridge<u32> = DispatchBridge::new(2, 3);
    assert!(bridge.submit(1).is_ok());
    assert!(bridge.submit(2).is_ok());
    assert!(bridge.submit(3).is_ok());
    // The queue is at its bound: backpressure, the operation is not taken.
    assert_eq!(bridge.submit(4).unwrap_err(), BridgeError::Full);

    // Two workers start; the third operation must wait.
    assert_eq!(bridge.start_next(), Some(1));
    assert_eq!(bridge.start_next(), Some(2));
    assert_eq!(bridge.start_next(), None);

    // A freed slot admits the queued operation, FIFO.
    bridge.complete();
    assert_eq!(bridge.start_next(), Some(3));
    assert_eq!(bridge.start_next(), None);
}

#[test]
fn n_plus_one_submissions_queue_the_extra() {
    // Pool of 2: submit three long-running operations; at most two run.
    let mut bridge: DispatchBridge<&str> = DispatchBridge::new(2, 8);
    bridge.submit("a").unwrap();
    bridge.submit("b").unwrap();
    bridge.submit("c").unwrap();
    assert!(bridge.start_next().is_some());
    assert!(bridge.start_next().is_some());
    // The third stays queued, not dropped, until a slot frees.
    assert_eq!(bridge.start_next(), None);
    bridge.complete();
    assert_eq!(bridge.start_next(), Some("c"));
}

#[test]
fn closed_bridge_fails_pending_and_new_submissions() {
    let mut bridge: DispatchBridge<u32> = DispatchBridge::new(1, 4);
    bridge.submit(10).unwrap();
    bridge.submit(11).unwrap();
    let pending = bridge.close();
    assert_eq!(pending, vec![10, 11]);
    assert_eq!(bridge.submit(12).unwrap_err(), BridgeError::Closed);
    assert_eq!(bridge.start_next(), None);
}

#[test]
fn apply_operation_runs_registry_calls() {
    let mut store = Storage::new();
    let r = apply_operation(&mut store, create_op("foo", "https://t.example", Some(3)), 100);
    let created_id = match r {
        Ok(Outcome::Link(link)) => {
            assert_eq!(link.slug, "foo");
            link.id
        },
        _ => panic!("expected a created link"),
    };

    let r = apply_operation(
        &mut store,
        Operation::ReadRouteBySlug(ReadRouteBySlug { slug: "foo".to_string() }),
        101,
    );
    match r {
        Ok(Outcome::Link(link)) => {
            assert_eq!(link.id, created_id);
            assert_eq!(link.target, "https://t.example");
        },
        _ => panic!("expected the stored link"),
    }

    let r = apply_operation(
        &mut store,
        Operation::RouteSlugAvailable(RouteSlugAvailable { slug: "foo".to_string() }),
        102,
    );
    assert!(matches!(r, Ok(Outcome::Flag(false))));

    let r = apply_operation(
        &mut store,
        Operation::GetMyRoutes(GetMyRoutes { creator_id: 3 }),
        103,
    );
    match r {
        Ok(Outcome::Links(links)) => assert_eq!(links.len(), 1),
        _ => panic!("expected the owner's links"),
    }

    // A duplicate creation through the bridge conflicts like any other.
    let r = apply_operation(&mut store, create_op("foo", "https://u.example", None), 104);
    assert!(matches!(r, Err(elide::StoreError::Conflict)));
}

#[test]
fn apply_operation_runs_directory_calls() {
    let mut store = Storage::new();
    let r = apply_operation(
        &mut store,
        Operation::CreateUser(CreateUser {
            name: "Ann".to_string(),
            email: "ann@example.com".to_string(),
            password_hash: b"$argon2id$stub".to_vec(),
            username: "annie".to_string(),
        }),
        50,
    );
    match r {
        Ok(Outcome::Account(user)) => {
            assert_eq!(user.username, "annie");
            assert_eq!(user.created_at, 50);
        },
        _ => panic!("expected the registered account"),
    }
    let r = apply_operation(
        &mut store,
        Operation::GetUserByUsername(GetUserByUsername { username: "annie".to_string() }),
        51,
    );
    match r {
        Ok(Outcome::Account(user)) => assert_eq!(user.email, "ann@example.com"),
        _ => panic!("expected the stored account"),
    }
    let r = apply_operation(
        &mut store,
        Operation::CheckUserNameExists(CheckUserNameExists { username: "annie".to_string() }),
        52,
    );
    assert!(matches!(r, Ok(Outcome::Flag(true))));
    let r = apply_operation(
        &mut store,
        Operation::UsernameAvailable(UsernameAvailable { username: "annie".to_string() }),
        53,
    );
    assert!(matches!(r, Ok(Outcome::Flag(false))));
}

#[test]
fn abandoned_caller_does_not_cancel_in_flight_work() {
    // A caller that stops waiting does not cancel the blocking storage
    // call: once dispatched, the operation runs to completion and its
    // effect lands in storage.
    let mut bridge: DispatchBridge<Operation> = DispatchBridge::new(1, 4);
    let mut store = Storage::new();
    bridge.submit(create_op("stubborn", "https://t.example", None)).unwrap();
    let op = bridge.start_next().expect("a free worker");
    // The submitting caller gives up here; the worker neither knows nor cares.
    let result = apply_operation(&mut store, op, 1);
    bridge.complete();
    assert!(result.is_ok());
    let read = apply_operation(
        &mut store,
        Operation::ReadRouteBySlug(ReadRouteBySlug { slug: "stubborn".to_string() }),
        2,
    );
    assert!(matches!(read, Ok(Outcome::Link(_))));
}

#[test]
fn bridge_drives_operations_in_arrival_order() {
    let mut bridge: DispatchBridge<Operation> = DispatchBridge::new(1, 8);
    let mut store = Storage::new();
    bridge.submit(create_op("one", "https://1.example", None)).unwrap();
    bridge.submit(create_op("one", "https://2.example", None)).unwrap();
    let mut results = Vec::new();
    while let Some(op) = bridge.start_next() {
        results.push(apply_operation(&mut store, op, 1).is_ok());
        bridge.complete();
    }
    // Same slug submitted twice: exactly the first submission won.
    assert_eq!(results, vec![true, false]);
}

#[test]
fn racing_creations_of_one_slug_admit_exactly_one() {
    // Four concurrent creation attempts with one slug, serialized by the
    // bridge in arrival order: exactly one succeeds, the rest conflict,
    // and exactly one link with the slug exists afterwards.
    let mut bridge: DispatchBridge<Operation> = DispatchBridge::new(2, 8);
    let mut store = Storage::new();
    for i in 0..4u32 {
        let target = format!("https://{}.example", i);
        bridge.submit(create_op("contested", &target, Some(i as u128))).unwrap();
    }
    let mut ok_count = 0;
    let mut conflict_count = 0;
    while let Some(op) = bridge.start_next() {
        match apply_operation(&mut store, op, 1) {
            Ok(Outcome::Link(link)) => {
                assert_eq!(link.slug, "contested");
                ok_count += 1;
            },
            Err(elide::StoreError::Conflict) => conflict_count += 1,
            _ => panic!("unexpected outcome"),
        }
        bridge.complete();
    }
    assert_eq!(ok_count, 1);
    assert_eq!(conflict_count, 3);
    // The winner was the first submission, and the slug resolves to it.
    let read = apply_operation(
        &mut store,
        Operation::ReadRouteBySlug(ReadRouteBySlug { slug: "contested".to_string() }),
        2,
    );
    match read {
        Ok(Outcome::Link(link)) => assert_eq!(link.target, "https://0.example"),
        _ => panic!("expected the surviving link"),
    }
}
