//! The dispatch bridge: a bounded queue of typed operation requests fed
//! to a small, fixed pool of blocking storage workers, together with the
//! dispatcher that executes one request against storage.
//!
//! The pool size is configured at startup and never resized; at most one
//! storage call is in flight per worker, so the total in flight never
//! exceeds the pool size. The queue bound is the system's backpressure:
//! a submission against a full queue fails fast and the caller keeps the
//! operation — the bridge never drops or silently retries one. Requests
//! leave the queue in arrival order; workers are chosen by availability,
//! so no cross-caller ordering beyond that is promised. A closed bridge
//! (a worker died) fails its pending operations and accepts no more.

use vstd::prelude::*;

use crate::articles::{
    articles_view, contains_article, article_index, Article, ArticleData, ArticleStore,
    ArticleView, published_pred,
};
use crate::errors::StoreError;
use crate::links::{NewRoute, Route, RouteView};
use crate::registry::{
    contains_id, contains_slug, fresh_route, owned_index, route_updated, routes_view,
    slug_taken_by_other, spec_read_by_id, spec_read_by_slug, owned_pred, LinkRegistry,
};
use crate::users::{
    contains_email, contains_user_id, contains_username, email_taken_by_other, fresh_user,
    opt_bytes_view, opt_str_view, spec_user_by_id, spec_user_by_username, user_id_index,
    user_updated, username_taken_by_other, NewUser, User, UserDirectory,
};

verus! {

/// Request to create a link, owned or orphan.
#[derive(Debug)]
pub struct CreateRoute {
    pub slug: String,
    pub creator_id: Option<u128>,
    pub target: String,
    pub active: Option<bool>,
}

/// Request to resolve a slug, the redirect path.
#[derive(Debug)]
pub struct ReadRouteBySlug {
    pub slug: String,
}

/// Request to re-issue a link's fields, owner-scoped.
#[derive(Debug)]
pub struct UpdateRoute {
    pub id: u128,
    pub slug: String,
    pub creator_id: u128,
    pub target: String,
    pub active: Option<bool>,
}

/// Request to remove a link, owner-scoped.
#[derive(Debug)]
pub struct DeleteRoute {
    pub id: u128,
    pub creator_id: u128,
}

/// Request to resolve a link by identifier.
#[derive(Debug)]
pub struct GetRoute {
    pub id: u128,
}

/// Request for all links of one creator.
#[derive(Debug)]
pub struct GetMyRoutes {
    pub creator_id: u128,
}

/// Request to probe whether a slug is free.
#[derive(Debug)]
pub struct RouteSlugAvailable {
    pub slug: String,
}

/// Request to register an account.
#[derive(Debug)]
pub struct CreateUser {
    pub name: String,
    pub email: String,
    pub password_hash: Vec<u8>,
    pub username: String,
}

/// Request to resolve an account by identifier.
#[derive(Debug)]
pub struct GetUser {
    pub id: u128,
}

/// Request to resolve an account by username, the login path.
#[derive(Debug)]
pub struct GetUserByUsername {
    pub username: String,
}

/// Request to test whether a username is registered.
#[derive(Debug)]
pub struct CheckUserNameExists {
    pub username: String,
}

/// Request to re-issue the supplied fields of an account.
#[derive(Debug)]
pub struct UpdateUser {
    pub id: u128,
    pub name: Option<String>,
    pub email: Option<String>,
    pub password_hash: Option<Vec<u8>>,
    pub username: Option<String>,
}

/// Request to remove an account.
#[derive(Debug)]
pub struct DeleteUser {
    pub id: u128,
}

/// Request to probe whether a username is free.
#[derive(Debug)]
pub struct UsernameAvailable {
    pub username: String,
}

/// Request to probe whether an email address is free.
#[derive(Debug)]
pub struct EmailAvailable {
    pub email: String,
}

/// Request to store an article draft.
#[derive(Debug)]
pub struct CreateArticle {
    pub title: String,
    pub body: String,
}

/// Request to re-issue an article's title and body.
#[derive(Debug)]
pub struct UpdateArticle {
    pub uuid: u128,
    pub title: String,
    pub body: String,
}

/// Request to remove an article.
#[derive(Debug)]
pub struct DeleteArticle {
    pub uuid: u128,
}

/// Request to publish an article.
#[derive(Debug)]
pub struct PublishArticle {
    pub uuid: u128,
}

/// Request for all published articles.
#[derive(Debug)]
pub struct GetArticles;

/// A closed, typed operation request, as submitted to the bridge.
#[derive(Debug)]
pub enum Operation {
    CreateRoute(CreateRoute),
    ReadRouteBySlug(ReadRouteBySlug),
    UpdateRoute(UpdateRoute),
    DeleteRoute(DeleteRoute),
    GetRoute(GetRoute),
    GetMyRoutes(GetMyRoutes),
    RouteSlugAvailable(RouteSlugAvailable),
    CreateUser(CreateUser),
    GetUser(GetUser),
    GetUserByUsername(GetUserByUsername),
    CheckUserNameExists(CheckUserNameExists),
    UpdateUser(UpdateUser),
    DeleteUser(DeleteUser),
    UsernameAvailable(UsernameAvailable),
    EmailAvailable(EmailAvailable),
    CreateArticle(CreateArticle),
    UpdateArticle(UpdateArticle),
    DeleteArticle(DeleteArticle),
    PublishArticle(PublishArticle),
    GetArticles(GetArticles),
}

/// The typed result an operation produces on success.
#[derive(Debug)]
pub enum Outcome {
    Link(Route),
    Links(Vec<Route>),
    Account(User),
    Flag(bool),
    Post(Article),
    Posts(Vec<Article>),
}

/// The storage state a worker's connection reaches: the three stores,
/// each with its own uniqueness invariants.
pub struct Storage {
    pub links: LinkRegistry,
    pub users: UserDirectory,
    pub articles: ArticleStore,
}

impl Storage {
    /// Every store well-formed.
    pub open spec fn wf(&self) -> bool {
        self.links.wf() && self.users.wf() && self.articles.wf()
    }

    /// Empty storage.
    pub fn new() -> (r: Self)
        ensures
            r.wf(),
            r.links@ == Seq::<RouteView>::empty(),
            r.users@ == Seq::<crate::users::UserView>::empty(),
            r.articles@ == Seq::<ArticleView>::empty(),
    {
        Storage { links: LinkRegistry::new(), users: UserDirectory::new(), articles: ArticleStore::new() }
    }
}

/// Execute one typed operation against storage: what one worker does
/// with its checked-out connection. Each arm delegates to the store
/// operation the request names; `now` stamps creations.
#[verifier::rlimit(60)]
pub fn apply_operation(store: &mut Storage, op: Operation, now: i64) -> (r: Result<
    Outcome,
    StoreError,
>)
    requires
        old(store).wf(),
    ensures
        final(store).wf(),
        match op {
            Operation::CreateRoute(m) => {
                &&& final(store).users@ == old(store).users@
                &&& final(store).articles@ == old(store).articles@
                &&& (contains_slug(old(store).links@, m.slug@) ==> (r matches Err(e) && e
                    == StoreError::Conflict))
                &&& match r {
                    Ok(o) => o matches Outcome::Link(link) && !contains_slug(
                        old(store).links@,
                        m.slug@,
                    ) && !contains_id(old(store).links@, link.id) && link@ == fresh_route(
                        link.id,
                        m.slug@,
                        m.target@,
                        m.creator_id,
                        m.active,
                        now,
                    ) && final(store).links@ == old(store).links@.push(link@),
                    Err(e) => e == StoreError::Conflict && final(store).links@ == old(
                        store,
                    ).links@,
                }
            },
            Operation::ReadRouteBySlug(m) => {
                &&& final(store).links@ == old(store).links@
                &&& final(store).users@ == old(store).users@
                &&& final(store).articles@ == old(store).articles@
                &&& match r {
                    Ok(o) => o matches Outcome::Link(link) && spec_read_by_slug(
                        old(store).links@,
                        m.slug@,
                    ) == Some(link@),
                    Err(e) => e == StoreError::NotFound && spec_read_by_slug(
                        old(store).links@,
                        m.slug@,
                    ) is None,
                }
            },
            Operation::UpdateRoute(m) => {
                &&& final(store).users@ == old(store).users@
                &&& final(store).articles@ == old(store).articles@
                &&& match owned_index(old(store).links@, m.id, m.creator_id) {
                    None => r matches Err(e) && e == StoreError::NotFound && final(store).links@
                        == old(store).links@,
                    Some(i) => {
                        if slug_taken_by_other(old(store).links@, m.slug@, i) {
                            r matches Err(e) && e == StoreError::Conflict && final(store).links@
                                == old(store).links@
                        } else {
                            r matches Ok(o) && o matches Outcome::Link(link) && link@
                                == route_updated(
                                old(store).links@[i],
                                m.slug@,
                                m.target@,
                                m.active,
                                m.creator_id,
                            ) && final(store).links@ == old(store).links@.update(i, link@)
                        }
                    },
                }
            },
            Operation::DeleteRoute(m) => {
                &&& final(store).users@ == old(store).users@
                &&& final(store).articles@ == old(store).articles@
                &&& match owned_index(old(store).links@, m.id, m.creator_id) {
                    None => r matches Err(e) && e == StoreError::NotFound && final(store).links@
                        == old(store).links@,
                    Some(i) => r matches Ok(o) && o matches Outcome::Link(link) && link@ == old(
                        store,
                    ).links@[i] && final(store).links@ == old(store).links@.remove(i),
                }
            },
            Operation::GetRoute(m) => {
                &&& final(store).links@ == old(store).links@
                &&& final(store).users@ == old(store).users@
                &&& final(store).articles@ == old(store).articles@
                &&& match r {
                    Ok(o) => o matches Outcome::Link(link) && spec_read_by_id(
                        old(store).links@,
                        m.id,
                    ) == Some(link@),
                    Err(e) => e == StoreError::NotFound && spec_read_by_id(
                        old(store).links@,
                        m.id,
                    ) is None,
                }
            },
            Operation::GetMyRoutes(m) => {
                &&& final(store).links@ == old(store).links@
                &&& final(store).users@ == old(store).users@
                &&& final(store).articles@ == old(store).articles@
                &&& r matches Ok(o) && o matches Outcome::Links(links) && routes_view(links@)
                    == old(store).links@.filter(owned_pred(m.creator_id))
            },
            Operation::RouteSlugAvailable(m) => {
                &&& final(store).links@ == old(store).links@
                &&& final(store).users@ == old(store).users@
                &&& final(store).articles@ == old(store).articles@
                &&& r matches Ok(o) && o matches Outcome::Flag(b) && b == !contains_slug(
                    old(store).links@,
                    m.slug@,
                )
            },
            Operation::CreateUser(m) => {
                &&& final(store).links@ == old(store).links@
                &&& final(store).articles@ == old(store).articles@
                &&& (contains_username(old(store).users@, m.username@) || contains_email(
                    old(store).users@,
                    m.email@,
                ) ==> (r matches Err(e) && e == StoreError::Conflict))
                &&& match r {
                    Ok(o) => o matches Outcome::Account(user) && !contains_username(
                        old(store).users@,
                        m.username@,
                    ) && !contains_email(old(store).users@, m.email@) && !contains_user_id(
                        old(store).users@,
                        user.id,
                    ) && user@ == fresh_user(
                        user.id,
                        m.name@,
                        m.username@,
                        m.password_hash@,
                        m.email@,
                        now,
                    ) && final(store).users@ == old(store).users@.push(user@),
                    Err(e) => e == StoreError::Conflict && final(store).users@ == old(
                        store,
                    ).users@,
                }
            },
            Operation::GetUser(m) => {
                &&& final(store).links@ == old(store).links@
                &&& final(store).users@ == old(store).users@
                &&& final(store).articles@ == old(store).articles@
                &&& match r {
                    Ok(o) => o matches Outcome::Account(user) && spec_user_by_id(
                        old(store).users@,
                        m.id,
                    ) == Some(user@),
                    Err(e) => e == StoreError::NotFound && spec_user_by_id(
                        old(store).users@,
                        m.id,
                    ) is None,
                }
            },
            Operation::GetUserByUsername(m) => {
                &&& final(store).links@ == old(store).links@
                &&& final(store).users@ == old(store).users@
                &&& final(store).articles@ == old(store).articles@
                &&& match r {
                    Ok(o) => o matches Outcome::Account(user) && spec_user_by_username(
                        old(store).users@,
                        m.username@,
                    ) == Some(user@),
                    Err(e) => e == StoreError::NotFound && spec_user_by_username(
                        old(store).users@,
                        m.username@,
                    ) is None,
                }
            },
            Operation::CheckUserNameExists(m) => {
                &&& final(store).links@ == old(store).links@
                &&& final(store).users@ == old(store).users@
                &&& final(store).articles@ == old(store).articles@
                &&& r matches Ok(o) && o matches Outcome::Flag(b) && b == contains_username(
                    old(store).users@,
                    m.username@,
                )
            },
            Operation::UpdateUser(m) => {
                &&& final(store).links@ == old(store).links@
                &&& final(store).articles@ == old(store).articles@
                &&& match spec_user_by_id(old(store).users@, m.id) {
                    None => r matches Err(e) && e == StoreError::NotFound && final(store).users@
                        == old(store).users@,
                    Some(_) => {
                        let i = user_id_index(old(store).users@, m.id);
                        if m.name is None && m.email is None && m.password_hash is None
                            && m.username is None {
                            r matches Err(e) && e == StoreError::NotFound && final(store).users@
                                == old(store).users@
                        } else if (m.username matches Some(u) && username_taken_by_other(
                            old(store).users@,
                            u@,
                            i,
                        )) || (m.email matches Some(a) && email_taken_by_other(
                            old(store).users@,
                            a@,
                            i,
                        )) {
                            r matches Err(e) && e == StoreError::Conflict && final(store).users@
                                == old(store).users@
                        } else {
                            r matches Ok(o) && o matches Outcome::Account(user) && user@
                                == user_updated(
                                old(store).users@[i],
                                opt_str_view(m.name),
                                opt_str_view(m.email),
                                opt_bytes_view(m.password_hash),
                                opt_str_view(m.username),
                            ) && final(store).users@ == old(store).users@.update(i, user@)
                        }
                    },
                }
            },
            Operation::DeleteUser(m) => {
                &&& final(store).links@ == old(store).links@
                &&& final(store).articles@ == old(store).articles@
                &&& match spec_user_by_id(old(store).users@, m.id) {
                    None => r matches Err(e) && e == StoreError::NotFound && final(store).users@
                        == old(store).users@,
                    Some(v) => r matches Ok(o) && o matches Outcome::Account(user) && user@ == v
                        && final(store).users@ == old(store).users@.remove(
                        user_id_index(old(store).users@, m.id),
                    ),
                }
            },
            Operation::UsernameAvailable(m) => {
                &&& final(store).links@ == old(store).links@
                &&& final(store).users@ == old(store).users@
                &&& final(store).articles@ == old(store).articles@
                &&& r matches Ok(o) && o matches Outcome::Flag(b) && b == !contains_username(
                    old(store).users@,
                    m.username@,
                )
            },
            Operation::EmailAvailable(m) => {
                &&& final(store).links@ == old(store).links@
                &&& final(store).users@ == old(store).users@
                &&& final(store).articles@ == old(store).articles@
                &&& r matches Ok(o) && o matches Outcome::Flag(b) && b == !contains_email(
                    old(store).users@,
                    m.email@,
                )
            },
            Operation::CreateArticle(m) => {
                &&& final(store).links@ == old(store).links@
                &&& final(store).users@ == old(store).users@
                &&& match r {
                    Ok(o) => o matches Outcome::Post(article) && !contains_article(
                        old(store).articles@,
                        article.uuid,
                    ) && article@ == (ArticleView {
                        uuid: article@.uuid,
                        title: m.title@,
                        body: m.body@,
                        published: false,
                    }) && final(store).articles@ == old(store).articles@.push(article@),
                    Err(e) => e == StoreError::Conflict && final(store).articles@ == old(
                        store,
                    ).articles@,
                }
            },
            Operation::UpdateArticle(m) => {
                &&& final(store).links@ == old(store).links@
                &&& final(store).users@ == old(store).users@
                &&& match r {
                    Ok(o) => o matches Outcome::Post(article) && contains_article(
                        old(store).articles@,
                        m.uuid,
                    ) && article@ == (ArticleView {
                        uuid: m.uuid,
                        title: m.title@,
                        body: m.body@,
                        published: old(store).articles@[article_index(
                            old(store).articles@,
                            m.uuid,
                        )].published,
                    }) && final(store).articles@ == old(store).articles@.update(
                        article_index(old(store).articles@, m.uuid),
                        article@,
                    ),
                    Err(e) => e == StoreError::NotFound && !contains_article(
                        old(store).articles@,
                        m.uuid,
                    ) && final(store).articles@ == old(store).articles@,
                }
            },
            Operation::DeleteArticle(m) => {
                &&& final(store).links@ == old(store).links@
                &&& final(store).users@ == old(store).users@
                &&& match r {
                    Ok(o) => o matches Outcome::Post(article) && contains_article(
                        old(store).articles@,
                        m.uuid,
                    ) && article@ == old(store).articles@[article_index(
                        old(store).articles@,
                        m.uuid,
                    )] && final(store).articles@ == old(store).articles@.remove(
                        article_index(old(store).articles@, m.uuid),
                    ),
                    Err(e) => e == StoreError::NotFound && !contains_article(
                        old(store).articles@,
                        m.uuid,
                    ) && final(store).articles@ == old(store).articles@,
                }
            },
            Operation::PublishArticle(m) => {
                &&& final(store).links@ == old(store).links@
                &&& final(store).users@ == old(store).users@
                &&& match r {
                    Ok(o) => o matches Outcome::Post(article) && contains_article(
                        old(store).articles@,
                        m.uuid,
                    ) && article@ == (ArticleView {
                        published: true,
                        ..old(store).articles@[article_index(old(store).articles@, m.uuid)]
                    }) && final(store).articles@ == old(store).articles@.update(
                        article_index(old(store).articles@, m.uuid),
                        article@,
                    ),
                    Err(e) => e == StoreError::NotFound && !contains_article(
                        old(store).articles@,
                        m.uuid,
                    ) && final(store).articles@ == old(store).articles@,
                }
            },
            Operation::GetArticles(_) => {
                &&& final(store).links@ == old(store).links@
                &&& final(store).users@ == old(store).users@
                &&& final(store).articles@ == old(store).articles@
                &&& r matches Ok(o) && o matches Outcome::Posts(posts) && articles_view(posts@)
                    == old(store).articles@.filter(published_pred())
            },
        },
{
    match op {
        Operation::CreateRoute(m) => {
            let data = NewRoute { slug: m.slug, target: m.target, active: m.active };
            match store.links.create(data, m.creator_id, now) {
                Ok(link) => Ok(Outcome::Link(link)),
                Err(e) => Err(e),
            }
        },
        Operation::ReadRouteBySlug(m) => {
            match store.links.read_by_slug(&m.slug) {
                Ok(link) => Ok(Outcome::Link(link)),
                Err(e) => Err(e),
            }
        },
        Operation::UpdateRoute(m) => {
            match store.links.update(m.id, m.creator_id, m.slug, m.target, m.active) {
                Ok(link) => Ok(Outcome::Link(link)),
                Err(e) => Err(e),
            }
        },
        Operation::DeleteRoute(m) => {
            match store.links.delete(m.id, m.creator_id) {
                Ok(link) => Ok(Outcome::Link(link)),
                Err(e) => Err(e),
            }
        },
        Operation::GetRoute(m) => {
            match store.links.read_by_id(m.id) {
                Ok(link) => Ok(Outcome::Link(link)),
                Err(e) => Err(e),
            }
        },
        Operation::GetMyRoutes(m) => Ok(Outcome::Links(store.links.list_by_owner(m.creator_id))),
        Operation::RouteSlugAvailable(m) => Ok(
            Outcome::Flag(store.links.slug_available(&m.slug)),
        ),
        Operation::CreateUser(m) => {
            let data = NewUser {
                display_name: m.name,
                username: m.username,
                password_hash: m.password_hash,
                email: m.email,
            };
            match store.users.create_user(data, now) {
                Ok(user) => Ok(Outcome::Account(user)),
                Err(e) => Err(e),
            }
        },
        Operation::GetUser(m) => {
            match store.users.get_by_id(m.id) {
                Ok(user) => Ok(Outcome::Account(user)),
                Err(e) => Err(e),
            }
        },
        Operation::GetUserByUsername(m) => {
            match store.users.get_by_username(&m.username) {
                Ok(user) => Ok(Outcome::Account(user)),
                Err(e) => Err(e),
            }
        },
        Operation::CheckUserNameExists(m) => Ok(
            Outcome::Flag(store.users.username_exists(&m.username)),
        ),
        Operation::UpdateUser(m) => {
            match store.users.update_user(m.id, m.name, m.email, m.password_hash, m.username) {
                Ok(user) => Ok(Outcome::Account(user)),
                Err(e) => Err(e),
            }
        },
        Operation::DeleteUser(m) => {
            match store.users.delete_user(m.id) {
                Ok(user) => Ok(Outcome::Account(user)),
                Err(e) => Err(e),
            }
        },
        Operation::UsernameAvailable(m) => Ok(
            Outcome::Flag(store.users.username_available(&m.username)),
        ),
        Operation::EmailAvailable(m) => Ok(Outcome::Flag(store.users.email_available(&m.email))),
        Operation::CreateArticle(m) => {
            match store.articles.create(ArticleData { title: m.title, body: m.body }) {
                Ok(article) => Ok(Outcome::Post(article)),
                Err(e) => Err(e),
            }
        },
        Operation::UpdateArticle(m) => {
            match store.articles.update(m.uuid, m.title, m.body) {
                Ok(article) => Ok(Outcome::Post(article)),
                Err(e) => Err(e),
            }
        },
        Operation::DeleteArticle(m) => {
            match store.articles.delete(m.uuid) {
                Ok(article) => Ok(Outcome::Post(article)),
                Err(e) => Err(e),
            }
        },
        Operation::PublishArticle(m) => {
            match store.articles.publish(m.uuid) {
                Ok(article) => Ok(Outcome::Post(article)),
                Err(e) => Err(e),
            }
        },
        Operation::GetArticles(_) => Ok(Outcome::Posts(store.articles.get_published())),
    }
}

/// Failure of the bridge itself, as surfaced to a caller; never retried
/// by the bridge.
#[derive(Clone, Copy, Debug, PartialEq, Eq, Structural)]
pub enum BridgeError {
    /// A worker's storage connection could not be obtained.
    Unavailable,
    /// A worker terminated abnormally; pending operations fail and no
    /// more are accepted. The bridge does not respawn workers.
    Closed,
    /// The bounded queue is full: backpressure. The caller keeps the
    /// operation and decides whether to wait or give up.
    Full,
}

/// Mathematical image of the bridge.
#[verifier::reject_recursive_types(T)]
pub struct BridgeView<T> {
    /// Number of workers, fixed at startup.
    pub pool_size: int,
    /// Queue bound, fixed at startup.
    pub capacity: int,
    /// Pending operations, oldest first.
    pub queue: Seq<T>,
    /// Operations currently executing against storage.
    pub in_flight: int,
    /// Whether a worker has died.
    pub closed: bool,
}

impl<T> BridgeView<T> {
    /// In-flight operations never exceed the pool; the queue never
    /// exceeds its bound.
    pub open spec fn wf(self) -> bool {
        &&& 0 <= self.in_flight <= self.pool_size
        &&& 0 <= self.queue.len() <= self.capacity
    }

    /// Submission: refused when closed, backpressured when the queue is
    /// full, otherwise appended — never dropped.
    pub open spec fn spec_submit(self, op: T) -> (BridgeView<T>, Result<(), BridgeError>) {
        if self.closed {
            (self, Err(BridgeError::Closed))
        } else if self.queue.len() >= self.capacity {
            (self, Err(BridgeError::Full))
        } else {
            (BridgeView { queue: self.queue.push(op), ..self }, Ok(()))
        }
    }

    /// Dispatch: when a worker is free and work is pending, the oldest
    /// request leaves the queue and occupies the worker.
    pub open spec fn spec_start_next(self) -> (BridgeView<T>, Option<T>) {
        if !self.closed && self.in_flight < self.pool_size && self.queue.len() > 0 {
            (
                BridgeView { queue: self.queue.drop_first(), in_flight: self.in_flight + 1, ..self },
                Some(self.queue[0]),
            )
        } else {
            (self, None)
        }
    }

    /// Completion: a worker finished its storage call and frees its slot.
    pub open spec fn spec_complete(self) -> BridgeView<T> {
        if self.in_flight > 0 {
            BridgeView { in_flight: self.in_flight - 1, ..self }
        } else {
            self
        }
    }
}

/// The dispatch bridge over operations of type `T`: the bounded queue
/// and the occupancy of the fixed worker pool. The storage calls
/// themselves happen outside; this structure decides what is queued,
/// what starts, and what is refused.
#[verifier::reject_recursive_types(T)]
pub struct DispatchBridge<T> {
    pool_size: usize,
    capacity: usize,
    queue: Vec<T>,
    in_flight: usize,
    closed: bool,
}

impl<T> View for DispatchBridge<T> {
    type V = BridgeView<T>;

    closed spec fn view(&self) -> BridgeView<T> {
        BridgeView {
            pool_size: self.pool_size as int,
            capacity: self.capacity as int,
            queue: self.queue@,
            in_flight: self.in_flight as int,
            closed: self.closed,
        }
    }
}

impl<T> DispatchBridge<T> {
    /// A fresh bridge: `pool_size` workers, all idle, over an empty
    /// bounded queue of `capacity` slots. Neither is ever resized.
    pub fn new(pool_size: usize, capacity: usize) -> (r: Self)
        ensures
            r@.wf(),
            r@.pool_size == pool_size,
            r@.capacity == capacity,
            r@.queue == Seq::<T>::empty(),
            r@.in_flight == 0,
            !r@.closed,
    {
        DispatchBridge { pool_size, capacity, queue: Vec::new(), in_flight: 0, closed: false }
    }

    /// Submit an operation, failing fast under backpressure: `Closed`
    /// when a worker has died, `Full` when the queue is at its bound —
    /// in both cases the caller keeps the operation and the bridge is
    /// unchanged — and otherwise the operation joins the back of the
    /// queue.
    pub fn submit(&mut self, op: T) -> (r: Result<(), BridgeError>)
        requires
            old(self)@.wf(),
        ensures
            final(self)@.wf(),
            final(self)@ == old(self)@.spec_submit(op).0,
            r == old(self)@.spec_submit(op).1,
    {
        if self.closed {
            return Err(BridgeError::Closed);
        }
        if self.queue.len() >= self.capacity {
            return Err(BridgeError::Full);
        }
        self.queue.push(op);
        Ok(())
    }

    /// Hand the oldest pending operation to a free worker, if the bridge
    /// is open, a worker is idle and work is pending; the caller then
    /// runs it against storage and reports back with `complete`.
    pub fn start_next(&mut self) -> (r: Option<T>)
        requires
            old(self)@.wf(),
        ensures
            final(self)@.wf(),
            final(self)@ == old(self)@.spec_start_next().0,
            r == old(self)@.spec_start_next().1,
    {
        if !self.closed && self.in_flight < self.pool_size && self.queue.len() > 0 {
            self.in_flight += 1;
            let op = self.queue.remove(0);
            proof {
                assert(self.queue@ =~= old(self)@.queue.drop_first());
            }
            Some(op)
        } else {
            None
        }
    }

    /// Report a worker's storage call finished, freeing its slot.
    pub fn complete(&mut self)
        requires
            old(self)@.wf(),
        ensures
            final(self)@.wf(),
            final(self)@ == old(self)@.spec_complete(),
    {
        if self.in_flight > 0 {
            self.in_flight -= 1;
        }
    }

    /// Close the bridge after a worker died abnormally: every pending
    /// operation is handed back to fail with `Closed`, and no further
    /// submission is accepted. Workers are not respawned.
    pub fn close(&mut self) -> (pending: Vec<T>)
        requires
            old(self)@.wf(),
        ensures
            final(self)@.wf(),
            final(self)@.closed,
            final(self)@.queue == Seq::<T>::empty(),
            final(self)@.pool_size == old(self)@.pool_size,
            final(self)@.capacity == old(self)@.capacity,
            final(self)@.in_flight == old(self)@.in_flight,
            pending@ == old(self)@.queue,
    {
        let mut pending: Vec<T> = Vec::new();
        core::mem::swap(&mut self.queue, &mut pending);
        self.closed = true;
        pending
    }
}

/// Law: every transition keeps the bridge well-formed; in particular the
/// number of operations executing against storage never exceeds the pool
/// size.
pub proof fn lemma_pool_bound<T>(m: BridgeView<T>, op: T)
    requires
        m.wf(),
    ensures
        m.spec_submit(op).0.wf(),
        m.spec_submit(op).0.in_flight <= m.pool_size,
        m.spec_start_next().0.wf(),
        m.spec_start_next().0.in_flight <= m.pool_size,
        m.spec_complete().wf(),
        m.spec_complete().in_flight <= m.pool_size,
{
}

/// Law: with every worker busy and room in the queue, one more
/// submission is accepted and queued, not dropped; still only the pool's
/// worth of operations execute, and the queued operation does not start
/// until a worker frees — after one completion the queue's head is
/// dispatched, the submitted operation itself once those before it have
/// gone.
pub proof fn lemma_backpressure<T>(m: BridgeView<T>, op: T)
    requires
        m.wf(),
        !m.closed,
        m.pool_size > 0,
        m.in_flight == m.pool_size,
        m.queue.len() < m.capacity,
    ensures
        ({
            let (m1, r) = m.spec_submit(op);
            &&& r is Ok
            &&& m1.queue == m.queue.push(op)
            &&& m1.in_flight == m.pool_size
            &&& m1.spec_start_next().1 is None
            &&& m1.spec_complete().spec_start_next().1 == Some(m1.queue[0])
            &&& (m.queue.len() == 0 ==> m1.spec_complete().spec_start_next().1 == Some(op))
        }),
{
    let (m1, r) = m.spec_submit(op);
    assert(m1.queue.len() > 0);
    assert(m1.spec_complete().in_flight == m.pool_size - 1 < m.pool_size);
}

} // verus!
