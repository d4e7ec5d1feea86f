//! Gateway-facing operations: what each endpoint decides once the HTTP
//! layer has handed it plain values. Authentication resolves the
//! caller's session token; validation runs before any storage call; and
//! failure outcomes are merged exactly where the wire must not reveal
//! more — a wrong password and an unknown username surface identically,
//! and a mutation on somebody else's link reports the same `NotFound` as
//! one on a missing link.

use vstd::prelude::*;

use crate::credentials::{hash, is_hash_of, spec_verify, verify};
use crate::errors::{ApiError, ValidationError};
use crate::links::{NewRoute, Route, RouteData, UpdateRouteData};
use crate::registry::{
    contains_id, contains_slug, fresh_route, owned_index, route_updated, slug_taken_by_other,
    spec_read_by_slug, LinkRegistry,
};
use crate::session::{spec_resolve, SessionAuthority};
use crate::users::{
    contains_email, contains_user_id, contains_username, fresh_user, opt_str_view,
    spec_update_refused, spec_user_by_id, spec_user_by_username, user_id_index, NewUser, User,
    UserDirectory,
};

verus! {

/// Registration data, as received from a caller.
#[derive(Debug)]
pub struct UserData {
    /// Name to be displayed, mostly a real name.
    pub name: String,
    /// Username; at least three characters.
    pub username: String,
    /// Plain password; at least six characters, hashed before storage.
    pub password: String,
    /// Email address, in valid format.
    pub email: String,
}

/// Self-service account update data; only supplied fields are touched.
#[derive(Debug)]
pub struct UpdateUserData {
    /// Name to be displayed, mostly a real name.
    pub name: Option<String>,
    /// Username; at least three characters.
    pub username: Option<String>,
    /// Plain password; at least six characters, hashed before storage.
    pub password: Option<String>,
    /// Email address, in valid format.
    pub email: Option<String>,
}

/// The UTF-8 encoding of a string's characters: the bytes the hashing
/// subsystem receives.
pub open spec fn utf8_bytes(s: Seq<char>) -> Seq<u8> {
    vstd::utf8::encode_utf8(s)
}

/// Whether a string is a valid email address. Named for what
/// `validator::validate_email` computes; it depends on the string alone.
pub uninterp spec fn is_valid_email(s: Seq<char>) -> bool;

/// Relies on `validator::validate_email`: validity of an email address
/// per the HTML5 form specification.
#[verifier::external_body]
fn email_is_valid(s: &String) -> (r: bool)
    ensures
        r == is_valid_email(s@),
{
    validator::validate_email(s.as_str())
}

/// The first validation failure of registration data, checked in the
/// order the gateway reports them: username, then email, then password.
pub open spec fn spec_validate_user_data(
    username: Seq<char>,
    password: Seq<char>,
    email: Seq<char>,
) -> Option<ValidationError> {
    if username.len() < 3 {
        Some(ValidationError::UsernameTooShort)
    } else if !is_valid_email(email) {
        Some(ValidationError::EmailInvalid)
    } else if password.len() < 6 {
        Some(ValidationError::PasswordTooShort)
    } else {
        None
    }
}

/// The first validation failure among the supplied fields of an update,
/// in the same reporting order.
pub open spec fn spec_validate_update_data(
    username: Option<Seq<char>>,
    password: Option<Seq<char>>,
    email: Option<Seq<char>>,
) -> Option<ValidationError> {
    if username matches Some(u) && u.len() < 3 {
        Some(ValidationError::UsernameTooShort)
    } else if email matches Some(m) && !is_valid_email(m) {
        Some(ValidationError::EmailInvalid)
    } else if password matches Some(p) && p.len() < 6 {
        Some(ValidationError::PasswordTooShort)
    } else {
        None
    }
}

/// Validate registration data.
pub fn validate_user_data(data: &UserData) -> (r: Option<ValidationError>)
    ensures
        r == spec_validate_user_data(data.username@, data.password@, data.email@),
{
    if data.username.as_str().unicode_len() < 3 {
        return Some(ValidationError::UsernameTooShort);
    }
    if !email_is_valid(&data.email) {
        return Some(ValidationError::EmailInvalid);
    }
    if data.password.as_str().unicode_len() < 6 {
        return Some(ValidationError::PasswordTooShort);
    }
    None
}

/// The UTF-8 bytes of a string, for hashing.
fn string_bytes(s: &String) -> (r: Vec<u8>)
    ensures
        r@ == utf8_bytes(s@),
{
    s.as_str().as_bytes_vec()
}

/// Register an account: validate, hash the password, store. Validation
/// failures name the offending field; a taken username or email is a
/// `Conflict`; a hashing-library failure is `Internal` and reaches no
/// storage.
pub fn register_user(dir: &mut UserDirectory, data: UserData, now: i64) -> (r: Result<
    User,
    ApiError,
>)
    requires
        old(dir).wf(),
    ensures
        final(dir).wf(),
        match spec_validate_user_data(data.username@, data.password@, data.email@) {
            Some(v) => r == Err::<User, ApiError>(ApiError::Validation(v)) && final(dir)@ == old(
                dir,
            )@,
            None => {
                &&& (contains_username(old(dir)@, data.username@) || contains_email(
                    old(dir)@,
                    data.email@,
                ) ==> r is Err)
                &&& match r {
                    Ok(user) => {
                        &&& !contains_username(old(dir)@, data.username@)
                        &&& !contains_email(old(dir)@, data.email@)
                        &&& !contains_user_id(old(dir)@, user.id)
                        &&& user@ == fresh_user(
                            user.id,
                            data.name@,
                            data.username@,
                            user@.password_hash,
                            data.email@,
                            now,
                        )
                        &&& is_hash_of(user@.password_hash, utf8_bytes(data.password@))
                        &&& final(dir)@ == old(dir)@.push(user@)
                    },
                    Err(e) => {
                        &&& final(dir)@ == old(dir)@
                        &&& (e == ApiError::Conflict || e == ApiError::Internal)
                    },
                }
            },
        },
{
    if let Some(v) = validate_user_data(&data) {
        return Err(ApiError::Validation(v));
    }
    let password_bytes = string_bytes(&data.password);
    let password_hash = match hash(&password_bytes) {
        Some(h) => h,
        None => {
            return Err(ApiError::Internal);
        },
    };
    let new_user = NewUser {
        display_name: data.name,
        username: data.username,
        password_hash,
        email: data.email,
    };
    match dir.create_user(new_user, now) {
        Ok(user) => Ok(user),
        Err(_) => Err(ApiError::Conflict),
    }
}

/// Log a caller in: resolve the username, verify the password against
/// the stored hash, and on success bind the caller's session token to
/// the account. An unknown username and a wrong password surface as the
/// same `NotFound`, revealing nothing, and leave the sessions untouched.
pub fn login_user(
    dir: &UserDirectory,
    auth: &mut SessionAuthority,
    token: u64,
    username: &String,
    password: &String,
) -> (r: Result<User, ApiError>)
    requires
        dir.wf(),
        old(auth).wf(),
    ensures
        final(auth).wf(),
        final(auth)@.secret == old(auth)@.secret,
        r is Err ==> r == Err::<User, ApiError>(ApiError::NotFound) && final(auth)@ == old(auth)@,
        match spec_user_by_username(dir@, username@) {
            None => r is Err,
            Some(u) => {
                if spec_verify(u.password_hash, utf8_bytes(password@)) {
                    &&& r matches Ok(user) && user@ == u
                    &&& spec_resolve(final(auth)@.sessions, token) == Some(u.id)
                    &&& forall|t: u64|
                        t != token ==> spec_resolve(final(auth)@.sessions, t) == spec_resolve(
                            old(auth)@.sessions,
                            t,
                        )
                } else {
                    r is Err
                }
            },
        },
{
    let user = match dir.get_by_username(username) {
        Ok(user) => user,
        Err(_) => {
            return Err(ApiError::NotFound);
        },
    };
    let password_bytes = string_bytes(password);
    if verify(&user.password_hash, &password_bytes) {
        auth.bind(token, user.id);
        Ok(user)
    } else {
        Err(ApiError::NotFound)
    }
}

/// The account the caller's session resolves to: `Unauthorized` without
/// a session, `NotFound` when the bound account no longer exists.
pub fn me_user(dir: &UserDirectory, auth: &SessionAuthority, token: u64) -> (r: Result<
    User,
    ApiError,
>)
    requires
        dir.wf(),
        auth.wf(),
    ensures
        match spec_resolve(auth@.sessions, token) {
            None => r == Err::<User, ApiError>(ApiError::Unauthorized),
            Some(uid) => match spec_user_by_id(dir@, uid) {
                None => r == Err::<User, ApiError>(ApiError::NotFound),
                Some(u) => r matches Ok(user) && user@ == u,
            },
        },
{
    let uid = match auth.authenticate(token) {
        Some(uid) => uid,
        None => {
            return Err(ApiError::Unauthorized);
        },
    };
    match dir.get_by_id(uid) {
        Ok(user) => Ok(user),
        Err(_) => Err(ApiError::NotFound),
    }
}

/// Whether the caller's token is bound to a session.
pub fn loggedin_check(auth: &SessionAuthority, token: u64) -> (r: bool)
    requires
        auth.wf(),
    ensures
        r == (spec_resolve(auth@.sessions, token) is Some),
{
    auth.authenticate(token).is_some()
}

/// Log the caller out: purge whatever binding the token carries.
pub fn logout_user(auth: &mut SessionAuthority, token: u64)
    requires
        old(auth).wf(),
    ensures
        final(auth).wf(),
        final(auth)@.secret == old(auth)@.secret,
        spec_resolve(final(auth)@.sessions, token) is None,
        forall|t: u64|
            t != token ==> spec_resolve(final(auth)@.sessions, t) == spec_resolve(
                old(auth)@.sessions,
                t,
            ),
{
    auth.purge(token);
}

/// Self-service update of the caller's own account: resolve the
/// session, validate the supplied fields, check against the directory
/// what storage would refuse, hash a supplied password, and re-issue
/// only what was supplied. Every storage refusal — unknown account,
/// empty update, or a clash on username or email — surfaces as the one
/// merged `NotFound`, and nothing else does; `Internal` occurs only
/// when a supplied password could not be hashed, and with no password
/// supplied an accepted request always succeeds.
pub fn update_user(
    dir: &mut UserDirectory,
    auth: &SessionAuthority,
    token: u64,
    data: UpdateUserData,
    now: i64,
) -> (r: Result<User, ApiError>)
    requires
        old(dir).wf(),
        auth.wf(),
    ensures
        final(dir).wf(),
        match spec_resolve(auth@.sessions, token) {
            None => r == Err::<User, ApiError>(ApiError::Unauthorized) && final(dir)@ == old(dir)@,
            Some(uid) => match spec_validate_update_data(
                opt_str_view(data.username),
                opt_str_view(data.password),
                opt_str_view(data.email),
            ) {
                Some(v) => r == Err::<User, ApiError>(ApiError::Validation(v)) && final(dir)@
                    == old(dir)@,
                None => ({
                    let refused = spec_update_refused(
                        old(dir)@,
                        uid,
                        opt_str_view(data.name),
                        opt_str_view(data.email),
                        data.password is Some,
                        opt_str_view(data.username),
                    );
                    if refused {
                        r == Err::<User, ApiError>(ApiError::NotFound) && final(dir)@ == old(
                            dir,
                        )@
                    } else {
                        &&& (data.password is None ==> r matches Ok(_))
                        &&& match r {
                            Ok(user) => {
                                let i = user_id_index(old(dir)@, uid);
                                &&& contains_user_id(old(dir)@, uid)
                                &&& user@.id == uid
                                &&& user@.display_name == (match data.name {
                                    Some(n) => n@,
                                    None => old(dir)@[i].display_name,
                                })
                                &&& user@.username == (match data.username {
                                    Some(u) => u@,
                                    None => old(dir)@[i].username,
                                })
                                &&& user@.email == (match data.email {
                                    Some(m) => m@,
                                    None => old(dir)@[i].email,
                                })
                                &&& (match data.password {
                                    Some(p) => is_hash_of(user@.password_hash, utf8_bytes(p@)),
                                    None => user@.password_hash == old(dir)@[i].password_hash,
                                })
                                &&& user@.email_verified == old(dir)@[i].email_verified
                                &&& user@.active == old(dir)@[i].active
                                &&& user@.created_at == old(dir)@[i].created_at
                                &&& user@.updated_at == old(dir)@[i].updated_at
                                &&& final(dir)@ == old(dir)@.update(i, user@)
                            },
                            Err(e) => {
                                &&& e == ApiError::Internal
                                &&& data.password is Some
                                &&& final(dir)@ == old(dir)@
                            },
                        }
                    }
                }),
            },
        },
{
    let uid = match auth.authenticate(token) {
        Some(uid) => uid,
        None => {
            return Err(ApiError::Unauthorized);
        },
    };
    let username_short = match &data.username {
        Some(u) => u.as_str().unicode_len() < 3,
        None => false,
    };
    if username_short {
        return Err(ApiError::Validation(ValidationError::UsernameTooShort));
    }
    let email_bad = match &data.email {
        Some(m) => !email_is_valid(m),
        None => false,
    };
    if email_bad {
        return Err(ApiError::Validation(ValidationError::EmailInvalid));
    }
    let password_short = match &data.password {
        Some(p) => p.as_str().unicode_len() < 6,
        None => false,
    };
    if password_short {
        return Err(ApiError::Validation(ValidationError::PasswordTooShort));
    }
    // Ask the directory first, so a refusal is reported before any
    // hashing work and a hashing failure is reported only for requests
    // storage would accept.
    if dir.update_refused(uid, &data.name, &data.email, data.password.is_some(), &data.username) {
        return Err(ApiError::NotFound);
    }
    let password_hash: Option<Vec<u8>> = match &data.password {
        Some(p) => {
            let bytes = string_bytes(p);
            match hash(&bytes) {
                Some(h) => Some(h),
                None => {
                    return Err(ApiError::Internal);
                },
            }
        },
        None => None,
    };
    match dir.update_user(uid, data.name, data.email, password_hash, data.username) {
        Ok(user) => Ok(user),
        Err(_) => Err(ApiError::NotFound),
    }
}

/// Delete the caller's own account, resolved from the session.
pub fn delete_user(dir: &mut UserDirectory, auth: &SessionAuthority, token: u64) -> (r: Result<
    User,
    ApiError,
>)
    requires
        old(dir).wf(),
        auth.wf(),
    ensures
        final(dir).wf(),
        match spec_resolve(auth@.sessions, token) {
            None => r == Err::<User, ApiError>(ApiError::Unauthorized) && final(dir)@ == old(dir)@,
            Some(uid) => match spec_user_by_id(old(dir)@, uid) {
                None => r == Err::<User, ApiError>(ApiError::NotFound) && final(dir)@ == old(dir)@,
                Some(v) => r matches Ok(user) && user@ == v && final(dir)@ == old(dir)@.remove(
                    user_id_index(old(dir)@, uid),
                ),
            },
        },
{
    let uid = match auth.authenticate(token) {
        Some(uid) => uid,
        None => {
            return Err(ApiError::Unauthorized);
        },
    };
    match dir.delete_user(uid) {
        Ok(user) => Ok(user),
        Err(_) => Err(ApiError::NotFound),
    }
}

/// Create a link owned by the caller: `Unauthorized` without a session,
/// `Conflict` when the slug is taken.
pub fn create_route(
    reg: &mut LinkRegistry,
    auth: &SessionAuthority,
    token: u64,
    route: RouteData,
    now: i64,
) -> (r: Result<Route, ApiError>)
    requires
        old(reg).wf(),
        auth.wf(),
    ensures
        final(reg).wf(),
        match spec_resolve(auth@.sessions, token) {
            None => r == Err::<Route, ApiError>(ApiError::Unauthorized) && final(reg)@ == old(
                reg,
            )@,
            Some(uid) => {
                &&& (contains_slug(old(reg)@, route.slug@) ==> r == Err::<Route, ApiError>(
                    ApiError::Conflict,
                ))
                &&& match r {
                    Ok(link) => {
                        &&& !contains_slug(old(reg)@, route.slug@)
                        &&& !contains_id(old(reg)@, link.id)
                        &&& link@ == fresh_route(
                            link.id,
                            route.slug@,
                            route.target@,
                            Some(uid),
                            route.active,
                            now,
                        )
                        &&& final(reg)@ == old(reg)@.push(link@)
                    },
                    Err(e) => {
                        &&& e == ApiError::Conflict
                        &&& final(reg)@ == old(reg)@
                    },
                }
            },
        },
{
    let uid = match auth.authenticate(token) {
        Some(uid) => uid,
        None => {
            return Err(ApiError::Unauthorized);
        },
    };
    let data = NewRoute { slug: route.slug, target: route.target, active: route.active };
    match reg.create(data, Some(uid), now) {
        Ok(link) => Ok(link),
        Err(_) => Err(ApiError::Conflict),
    }
}

/// Create an anonymous, orphan link — refused with `BadRequest` when the
/// caller already has an account session, which should use the owned
/// path instead. The link is created with no creator and falls to the
/// sweeper once past the retention window.
pub fn create_orphan_route(
    reg: &mut LinkRegistry,
    auth: &SessionAuthority,
    token: u64,
    route: RouteData,
    now: i64,
) -> (r: Result<Route, ApiError>)
    requires
        old(reg).wf(),
        auth.wf(),
    ensures
        final(reg).wf(),
        match spec_resolve(auth@.sessions, token) {
            Some(_) => r == Err::<Route, ApiError>(ApiError::BadRequest) && final(reg)@ == old(
                reg,
            )@,
            None => {
                &&& (contains_slug(old(reg)@, route.slug@) ==> r == Err::<Route, ApiError>(
                    ApiError::Conflict,
                ))
                &&& match r {
                    Ok(link) => {
                        &&& !contains_slug(old(reg)@, route.slug@)
                        &&& !contains_id(old(reg)@, link.id)
                        &&& link@ == fresh_route(
                            link.id,
                            route.slug@,
                            route.target@,
                            None,
                            route.active,
                            now,
                        )
                        &&& final(reg)@ == old(reg)@.push(link@)
                    },
                    Err(e) => {
                        &&& e == ApiError::Conflict
                        &&& final(reg)@ == old(reg)@
                    },
                }
            },
        },
{
    if auth.authenticate(token).is_some() {
        return Err(ApiError::BadRequest);
    }
    let data = NewRoute { slug: route.slug, target: route.target, active: route.active };
    match reg.create(data, None, now) {
        Ok(link) => Ok(link),
        Err(_) => Err(ApiError::Conflict),
    }
}

/// Owner-scoped update of a link through the caller's session. Every
/// storage refusal — a missing link, somebody else's link, or a slug
/// clash — surfaces as the one merged `NotFound`.
pub fn update_route(
    reg: &mut LinkRegistry,
    auth: &SessionAuthority,
    token: u64,
    route: UpdateRouteData,
) -> (r: Result<Route, ApiError>)
    requires
        old(reg).wf(),
        auth.wf(),
    ensures
        final(reg).wf(),
        match spec_resolve(auth@.sessions, token) {
            None => r == Err::<Route, ApiError>(ApiError::Unauthorized) && final(reg)@ == old(
                reg,
            )@,
            Some(uid) => match owned_index(old(reg)@, route.id, uid) {
                None => r == Err::<Route, ApiError>(ApiError::NotFound) && final(reg)@ == old(
                    reg,
                )@,
                Some(i) => {
                    if slug_taken_by_other(old(reg)@, route.slug@, i) {
                        r == Err::<Route, ApiError>(ApiError::NotFound) && final(reg)@ == old(
                            reg,
                        )@
                    } else {
                        r matches Ok(link) && link@ == route_updated(
                            old(reg)@[i],
                            route.slug@,
                            route.target@,
                            route.active,
                            uid,
                        ) && final(reg)@ == old(reg)@.update(i, link@)
                    }
                },
            },
        },
{
    let uid = match auth.authenticate(token) {
        Some(uid) => uid,
        None => {
            return Err(ApiError::Unauthorized);
        },
    };
    match reg.update(route.id, uid, route.slug, route.target, route.active) {
        Ok(link) => Ok(link),
        Err(_) => Err(ApiError::NotFound),
    }
}

/// Owner-scoped removal of a link through the caller's session; a
/// missing link and somebody else's link surface identically.
pub fn delete_route(reg: &mut LinkRegistry, auth: &SessionAuthority, token: u64, id: u128) -> (r:
    Result<Route, ApiError>)
    requires
        old(reg).wf(),
        auth.wf(),
    ensures
        final(reg).wf(),
        match spec_resolve(auth@.sessions, token) {
            None => r == Err::<Route, ApiError>(ApiError::Unauthorized) && final(reg)@ == old(
                reg,
            )@,
            Some(uid) => match owned_index(old(reg)@, id, uid) {
                None => r == Err::<Route, ApiError>(ApiError::NotFound) && final(reg)@ == old(
                    reg,
                )@,
                Some(i) => r matches Ok(link) && link@ == old(reg)@[i] && final(reg)@ == old(
                    reg,
                )@.remove(i),
            },
        },
{
    let uid = match auth.authenticate(token) {
        Some(uid) => uid,
        None => {
            return Err(ApiError::Unauthorized);
        },
    };
    match reg.delete(id, uid) {
        Ok(link) => Ok(link),
        Err(_) => Err(ApiError::NotFound),
    }
}

/// All links owned by the caller, resolved from the session.
pub fn get_user_routes(reg: &LinkRegistry, auth: &SessionAuthority, token: u64) -> (r: Result<
    Vec<Route>,
    ApiError,
>)
    requires
        reg.wf(),
        auth.wf(),
    ensures
        match spec_resolve(auth@.sessions, token) {
            None => r == Err::<Vec<Route>, ApiError>(ApiError::Unauthorized),
            Some(uid) => r matches Ok(links) && crate::registry::routes_view(links@)
                == reg@.filter(crate::registry::owned_pred(uid)),
        },
{
    let uid = match auth.authenticate(token) {
        Some(uid) => uid,
        None => {
            return Err(ApiError::Unauthorized);
        },
    };
    Ok(reg.list_by_owner(uid))
}

/// What the unauthenticated redirect endpoint answers for a slug.
#[derive(Debug)]
pub enum RedirectOutcome {
    /// The slug resolves to an active link: redirect to its target.
    Redirect(String),
    /// The slug resolves to a link marked inactive.
    Inactive,
    /// No link carries the slug.
    NotFound,
}

/// Resolve a slug for redirection: the target of the active link
/// carrying it, `Inactive` when the link is switched off, `NotFound`
/// when no link carries the slug.
pub fn redirect_by_slug(reg: &LinkRegistry, slug: &String) -> (r: RedirectOutcome)
    requires
        reg.wf(),
    ensures
        match spec_read_by_slug(reg@, slug@) {
            None => r is NotFound,
            Some(l) => {
                if l.active {
                    r matches RedirectOutcome::Redirect(t) && t@ == l.target
                } else {
                    r is Inactive
                }
            },
        },
{
    match reg.read_by_slug(slug) {
        Ok(link) => {
            if link.active {
                RedirectOutcome::Redirect(link.target)
            } else {
                RedirectOutcome::Inactive
            }
        },
        Err(_) => RedirectOutcome::NotFound,
    }
}

} // verus!
