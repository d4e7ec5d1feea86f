//! The full path a link takes: register, log in with a bound session,
//! create an owned link, resolve it anonymously, and watch another
//! user's deletion attempt bounce off the owner scope.

use elide::gateway::{
    create_orphan_route, create_route, delete_route, get_user_routes, login_user,
    redirect_by_slug, register_user, update_route, RedirectOutcome, UserData,
};
use elide::links::{RouteData, UpdateRouteData};
use elide::registry::LinkRegistry;
use elide::session::SessionAuthority;
use elide::users::UserDirectory;
use elide::ApiError;

fn data(name: &str, username: &str, password: &str, email: &str) -> UserData {
    UserData {
        name: name.to_string(),
        username: username.to_string(),
        password: password.to_string(),
        email: email.to_string(),
    }
}

fn route(slug: &str, target: &str) -> RouteData {
    RouteData { slug: slug.to_string(), target: target.to_string(), active: None }
}

#[test]
fn register_login_create_read_foreign_delete() {
    let mut dir = UserDirectory::new();
    let mut auth = SessionAuthority::with_fresh_secret();
    let mut reg = LinkRegistry::new();

    // Register user U and log in, binding U's session token.
    register_user(&mut dir, data("U", "user-u", "secret-u-pass", "u@example.com"), 1).unwrap();
    let token_u = 100u64;
    login_user(&dir, &mut auth, token_u, &"user-u".to_string(), &"secret-u-pass".to_string())
        .expect("correct credentials");

    // U creates the link "foo".
    let link =
        create_route(&mut reg, &auth, token_u, route("foo", "https://target.example"), 2)
            .expect("fresh slug");

    // An anonymous redirect resolves it.
    match redirect_by_slug(&reg, &"foo".to_string()) {
        RedirectOutcome::Redirect(target) => assert_eq!(target, "https://target.example"),
        _ => panic!("expected a redirect"),
    }

    // A second user logs in and attempts to delete U's link: NotFound,
    // exactly as if the link did not exist.
    register_user(&mut dir, data("V", "user-v", "secret-v-pass", "v@example.com"), 3).unwrap();
    let token_v = 200u64;
    login_user(&dir, &mut auth, token_v, &"user-v".to_string(), &"secret-v-pass".to_string())
        .expect("correct credentials");
    let foreign = delete_route(&mut reg, &auth, token_v, link.id);
    assert_eq!(foreign.unwrap_err(), ApiError::NotFound);

    // Still there; the owner can delete it.
    assert!(matches!(redirect_by_slug(&reg, &"foo".to_string()), RedirectOutcome::Redirect(_)));
    delete_route(&mut reg, &auth, token_u, link.id).expect("owner matches");
    assert!(matches!(redirect_by_slug(&reg, &"foo".to_string()), RedirectOutcome::NotFound));
}

#[test]
fn owner_updates_and_lists_links_through_gateway() {
    let mut dir = UserDirectory::new();
    let mut auth = SessionAuthority::with_fresh_secret();
    let mut reg = LinkRegistry::new();
    register_user(&mut dir, data("U", "user-u", "secret-u-pass", "u@example.com"), 1).unwrap();
    register_user(&mut dir, data("V", "user-v", "secret-v-pass", "v@example.com"), 1).unwrap();
    let (tu, tv) = (1u64, 2u64);
    login_user(&dir, &mut auth, tu, &"user-u".to_string(), &"secret-u-pass".to_string()).unwrap();
    login_user(&dir, &mut auth, tv, &"user-v".to_string(), &"secret-v-pass".to_string()).unwrap();

    let link = create_route(&mut reg, &auth, tu, route("mine", "https://old.example"), 2).unwrap();

    // The owner re-issues the fields.
    let upd = UpdateRouteData {
        id: link.id,
        slug: "mine".to_string(),
        target: "https://new.example".to_string(),
        active: None,
    };
    let updated = update_route(&mut reg, &auth, tu, upd).expect("owner matches");
    assert_eq!(updated.target, "https://new.example");

    // A foreign caller's update bounces off the owner scope as NotFound.
    let upd = UpdateRouteData {
        id: link.id,
        slug: "mine".to_string(),
        target: "https://theft.example".to_string(),
        active: None,
    };
    assert_eq!(update_route(&mut reg, &auth, tv, upd).unwrap_err(), ApiError::NotFound);

    // Listing is scoped to the session's owner.
    let mine = get_user_routes(&reg, &auth, tu).expect("session bound");
    assert_eq!(mine.len(), 1);
    assert_eq!(mine[0].target, "https://new.example");
    assert!(get_user_routes(&reg, &auth, tv).expect("session bound").is_empty());
    assert_eq!(get_user_routes(&reg, &auth, 99).unwrap_err(), ApiError::Unauthorized);
}

#[test]
fn create_without_session_is_unauthorized() {
    let auth = SessionAuthority::with_fresh_secret();
    let mut reg = LinkRegistry::new();
    let r = create_route(&mut reg, &auth, 1, route("x", "https://t.example"), 1);
    assert_eq!(r.unwrap_err(), ApiError::Unauthorized);
}

#[test]
fn orphan_creation_requires_no_session_and_refuses_one() {
    let mut dir = UserDirectory::new();
    let mut auth = SessionAuthority::with_fresh_secret();
    let mut reg = LinkRegistry::new();

    let link = create_orphan_route(&mut reg, &auth, 1, route("anon", "https://t.example"), 1)
        .expect("no session");
    assert_eq!(link.creator_id, None);

    register_user(&mut dir, data("U", "user-u", "secret-u-pass", "u@example.com"), 1).unwrap();
    login_user(&dir, &mut auth, 9, &"user-u".to_string(), &"secret-u-pass".to_string()).unwrap();
    let r = create_orphan_route(&mut reg, &auth, 9, route("anon2", "https://t.example"), 2);
    assert_eq!(r.unwrap_err(), ApiError::BadRequest);
}

#[test]
fn inactive_link_does_not_redirect() {
    let auth = SessionAuthority::with_fresh_secret();
    let mut reg = LinkRegistry::new();
    let data = RouteData {
        slug: "dark".to_string(),
        target: "https://t.example".to_string(),
        active: Some(false),
    };
    create_orphan_route(&mut reg, &auth, 1, data, 1).expect("no session");
    assert!(matches!(redirect_by_slug(&reg, &"dark".to_string()), RedirectOutcome::Inactive));
}

#[test]
fn unknown_slug_is_not_found() {
    let reg = LinkRegistry::new();
    assert!(matches!(redirect_by_slug(&reg, &"nothing".to_string()), RedirectOutcome::NotFound));
}
