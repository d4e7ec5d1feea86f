//! Registration, login and session behaviour through the gateway: field
//! validation with its reporting order, uniqueness conflicts, the merged
//! login failure that reveals nothing, and session binding and purging.

use elide::gateway::{
    delete_user, loggedin_check, login_user, logout_user, me_user, register_user, update_user,
    UpdateUserData, UserData,
};
use elide::session::SessionAuthority;
use elide::users::UserDirectory;
use elide::{ApiError, ValidationError};

fn data(name: &str, username: &str, password: &str, email: &str) -> UserData {
    UserData {
        name: name.to_string(),
        username: username.to_string(),
        password: password.to_string(),
        email: email.to_string(),
    }
}

#[test]
fn register_rejects_short_username() {
    let mut dir = UserDirectory::new();
    let r = register_user(&mut dir, data("Ann", "ab", "longenough", "ann@example.com"), 1);
    assert_eq!(r.unwrap_err(), ApiError::Validation(ValidationError::UsernameTooShort));
}

#[test]
fn register_rejects_bad_email() {
    let mut dir = UserDirectory::new();
    let r = register_user(&mut dir, data("Ann", "annie", "longenough", "not-an-email"), 1);
    assert_eq!(r.unwrap_err(), ApiError::Validation(ValidationError::EmailInvalid));
}

#[test]
fn register_rejects_short_password() {
    let mut dir = UserDirectory::new();
    let r = register_user(&mut dir, data("Ann", "annie", "five5", "ann@example.com"), 1);
    assert_eq!(r.unwrap_err(), ApiError::Validation(ValidationError::PasswordTooShort));
}

#[test]
fn register_reports_username_before_email_and_password() {
    let mut dir = UserDirectory::new();
    // All three fields invalid: the username failure is the one reported.
    let r = register_user(&mut dir, data("Ann", "ab", "five5", "nope"), 1);
    assert_eq!(r.unwrap_err(), ApiError::Validation(ValidationError::UsernameTooShort));
    // Email reported before password when the username passes.
    let r = register_user(&mut dir, data("Ann", "annie", "five5", "nope"), 1);
    assert_eq!(r.unwrap_err(), ApiError::Validation(ValidationError::EmailInvalid));
}

#[test]
fn register_stores_account_fields() {
    let mut dir = UserDirectory::new();
    let user = register_user(&mut dir, data("Ann", "annie", "longenough", "ann@example.com"), 7)
        .expect("valid registration");
    assert_eq!(user.display_name, "Ann");
    assert_eq!(user.username, "annie");
    assert_eq!(user.email, "ann@example.com");
    assert!(!user.email_verified);
    assert!(user.active);
    assert_eq!(user.created_at, 7);
    // The stored credential is a derived hash, never the password itself.
    assert_ne!(user.password_hash, b"longenough".to_vec());
    assert!(dir.username_exists(&"annie".to_string()));
    assert!(!dir.username_available(&"annie".to_string()));
    assert!(!dir.email_available(&"ann@example.com".to_string()));
}

#[test]
fn register_duplicate_username_conflicts() {
    let mut dir = UserDirectory::new();
    register_user(&mut dir, data("Ann", "annie", "longenough", "ann@example.com"), 1).unwrap();
    let r = register_user(&mut dir, data("Ann B", "annie", "otherpass", "annb@example.com"), 2);
    assert_eq!(r.unwrap_err(), ApiError::Conflict);
}

#[test]
fn register_duplicate_email_conflicts() {
    let mut dir = UserDirectory::new();
    register_user(&mut dir, data("Ann", "annie", "longenough", "ann@example.com"), 1).unwrap();
    let r = register_user(&mut dir, data("Ann B", "annb", "otherpass", "ann@example.com"), 2);
    assert_eq!(r.unwrap_err(), ApiError::Conflict);
}

#[test]
fn login_binds_session_and_failures_are_indistinguishable() {
    let mut dir = UserDirectory::new();
    let mut auth = SessionAuthority::with_fresh_secret();
    let registered =
        register_user(&mut dir, data("Ann", "annie", "longenough", "ann@example.com"), 1).unwrap();

    let token = 42u64;
    let unknown_user =
        login_user(&dir, &mut auth, token, &"nobody".to_string(), &"longenough".to_string());
    let wrong_password =
        login_user(&dir, &mut auth, token, &"annie".to_string(), &"wrongpass99".to_string());
    // Same outcome for both failure causes: no username enumeration.
    assert_eq!(unknown_user.unwrap_err(), wrong_password.unwrap_err());
    assert!(!loggedin_check(&auth, token));

    let user = login_user(&dir, &mut auth, token, &"annie".to_string(), &"longenough".to_string())
        .expect("correct credentials");
    assert_eq!(user.id, registered.id);
    assert!(loggedin_check(&auth, token));
    let me = me_user(&dir, &auth, token).expect("session bound");
    assert_eq!(me.id, registered.id);

    logout_user(&mut auth, token);
    assert!(!loggedin_check(&auth, token));
    assert_eq!(me_user(&dir, &auth, token).unwrap_err(), ApiError::Unauthorized);
}

#[test]
fn update_user_reissues_only_supplied_fields() {
    let mut dir = UserDirectory::new();
    let mut auth = SessionAuthority::with_fresh_secret();
    register_user(&mut dir, data("Ann", "annie", "longenough", "ann@example.com"), 1).unwrap();
    let token = 7u64;
    login_user(&dir, &mut auth, token, &"annie".to_string(), &"longenough".to_string()).unwrap();

    let updated = update_user(
        &mut dir,
        &auth,
        token,
        UpdateUserData {
            name: Some("Ann Smith".to_string()),
            username: None,
            password: None,
            email: None,
        },
        2,
    )
    .expect("own account");
    assert_eq!(updated.display_name, "Ann Smith");
    assert_eq!(updated.username, "annie");
    assert_eq!(updated.email, "ann@example.com");
}

#[test]
fn update_user_empty_changeset_is_refused() {
    let mut dir = UserDirectory::new();
    let mut auth = SessionAuthority::with_fresh_secret();
    register_user(&mut dir, data("Ann", "annie", "longenough", "ann@example.com"), 1).unwrap();
    let token = 7u64;
    login_user(&dir, &mut auth, token, &"annie".to_string(), &"longenough".to_string()).unwrap();
    let r = update_user(
        &mut dir,
        &auth,
        token,
        UpdateUserData { name: None, username: None, password: None, email: None },
        2,
    );
    assert_eq!(r.unwrap_err(), ApiError::NotFound);
}

#[test]
fn update_user_validates_supplied_fields() {
    let mut dir = UserDirectory::new();
    let mut auth = SessionAuthority::with_fresh_secret();
    register_user(&mut dir, data("Ann", "annie", "longenough", "ann@example.com"), 1).unwrap();
    let token = 7u64;
    login_user(&dir, &mut auth, token, &"annie".to_string(), &"longenough".to_string()).unwrap();
    let r = update_user(
        &mut dir,
        &auth,
        token,
        UpdateUserData {
            name: None,
            username: Some("ab".to_string()),
            password: None,
            email: None,
        },
        2,
    );
    assert_eq!(r.unwrap_err(), ApiError::Validation(ValidationError::UsernameTooShort));
}

#[test]
fn update_user_to_taken_username_is_not_found() {
    let mut dir = UserDirectory::new();
    let mut auth = SessionAuthority::with_fresh_secret();
    register_user(&mut dir, data("Ann", "annie", "longenough", "ann@example.com"), 1).unwrap();
    register_user(&mut dir, data("Bob", "bobby", "alsolonger", "bob@example.com"), 1).unwrap();
    let token = 3u64;
    login_user(&dir, &mut auth, token, &"bobby".to_string(), &"alsolonger".to_string()).unwrap();
    // Taking another account's username is refused; merged into NotFound.
    let r = update_user(
        &mut dir,
        &auth,
        token,
        UpdateUserData {
            name: None,
            username: Some("annie".to_string()),
            password: None,
            email: None,
        },
        2,
    );
    assert_eq!(r.unwrap_err(), ApiError::NotFound);
    // Re-issuing one's own username is no clash.
    let r = update_user(
        &mut dir,
        &auth,
        token,
        UpdateUserData {
            name: None,
            username: Some("bobby".to_string()),
            password: None,
            email: None,
        },
        2,
    );
    assert_eq!(r.unwrap().username, "bobby");
}

#[test]
fn update_user_password_change_takes_effect() {
    let mut dir = UserDirectory::new();
    let mut auth = SessionAuthority::with_fresh_secret();
    register_user(&mut dir, data("Ann", "annie", "longenough", "ann@example.com"), 1).unwrap();
    let token = 7u64;
    login_user(&dir, &mut auth, token, &"annie".to_string(), &"longenough".to_string()).unwrap();
    update_user(
        &mut dir,
        &auth,
        token,
        UpdateUserData {
            name: None,
            username: None,
            password: Some("evenlonger".to_string()),
            email: None,
        },
        2,
    )
    .expect("own account");
    let mut auth2 = SessionAuthority::with_fresh_secret();
    let old = login_user(&dir, &mut auth2, 1, &"annie".to_string(), &"longenough".to_string());
    assert!(old.is_err());
    let new = login_user(&dir, &mut auth2, 1, &"annie".to_string(), &"evenlonger".to_string());
    assert!(new.is_ok());
}

#[test]
fn update_user_without_session_is_unauthorized() {
    let mut dir = UserDirectory::new();
    let auth = SessionAuthority::with_fresh_secret();
    let r = update_user(
        &mut dir,
        &auth,
        1,
        UpdateUserData { name: Some("X".to_string()), username: None, password: None, email: None },
        2,
    );
    assert_eq!(r.unwrap_err(), ApiError::Unauthorized);
}

#[test]
fn delete_user_removes_own_account() {
    let mut dir = UserDirectory::new();
    let mut auth = SessionAuthority::with_fresh_secret();
    register_user(&mut dir, data("Ann", "annie", "longenough", "ann@example.com"), 1).unwrap();
    let token = 9u64;
    login_user(&dir, &mut auth, token, &"annie".to_string(), &"longenough".to_string()).unwrap();
    let removed = delete_user(&mut dir, &auth, token).expect("session bound");
    assert_eq!(removed.username, "annie");
    // The session still resolves, but the account is gone.
    assert_eq!(me_user(&dir, &auth, token).unwrap_err(), ApiError::NotFound);
    assert!(dir.username_available(&"annie".to_string()));
}

#[test]
fn authorize_matches_creator_only() {
    let auth = SessionAuthority::with_fresh_secret();
    let mut reg = elide::registry::LinkRegistry::new();
    let owned = reg
        .create(
            elide::links::NewRoute {
                slug: "owned".to_string(),
                target: "t".to_string(),
                active: None,
            },
            Some(77),
            1,
        )
        .unwrap();
    let orphan = reg
        .create(
            elide::links::NewRoute {
                slug: "loose".to_string(),
                target: "t".to_string(),
                active: None,
            },
            None,
            1,
        )
        .unwrap();
    assert!(auth.authorize(77, &owned));
    assert!(!auth.authorize(78, &owned));
    // An orphan authorizes nobody.
    assert!(!auth.authorize(77, &orphan));
}

#[test]
fn sessions_are_per_token() {
    let mut auth = SessionAuthority::with_fresh_secret();
    assert!(!loggedin_check(&auth, 1));
    // Binding one token leaves every other token unresolved.
    let mut dir = UserDirectory::new();
    register_user(&mut dir, data("Ann", "annie", "longenough", "ann@example.com"), 1).unwrap();
    login_user(&dir, &mut auth, 5, &"annie".to_string(), &"longenough".to_string()).unwrap();
    assert!(loggedin_check(&auth, 5));
    assert!(!loggedin_check(&auth, 6));
    logout_user(&mut auth, 6);
    assert!(loggedin_check(&auth, 5));
}
