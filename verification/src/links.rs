//! The link data model: a slug-to-target mapping with an optional owner,
//! an activity flag, an advisory validity window and timestamps.
//!
//! Identifiers are 128-bit values drawn at random on creation; timestamps
//! are seconds. A link whose `creator_id` is absent is an orphan: created
//! anonymously, immutable through the owner-scoped operations, and removed
//! by the scheduled sweep once past its cutoff.

use vstd::prelude::*;

verus! {

/// A stored link, as the registry returns it.
#[derive(Debug)]
pub struct Route {
    /// Unique identifier, used by the link's administrator.
    pub id: u128,
    /// Slug part of the short URL.
    pub slug: String,
    /// Target the requester is redirected to.
    pub target: String,
    /// Owning user, or absent for an orphan link.
    pub creator_id: Option<u128>,
    /// Whether the link redirects.
    pub active: bool,
    /// Time from which the link is meant to be active.
    pub active_from: Option<i64>,
    /// Time until which the link is meant to be active.
    pub active_till: Option<i64>,
    pub created_at: i64,
    pub updated_at: i64,
}

/// Mathematical image of a `Route`.
pub struct RouteView {
    pub id: u128,
    pub slug: Seq<char>,
    pub target: Seq<char>,
    pub creator_id: Option<u128>,
    pub active: bool,
    pub active_from: Option<i64>,
    pub active_till: Option<i64>,
    pub created_at: i64,
    pub updated_at: i64,
}

impl View for Route {
    type V = RouteView;

    open spec fn view(&self) -> RouteView {
        RouteView {
            id: self.id,
            slug: self.slug@,
            target: self.target@,
            creator_id: self.creator_id,
            active: self.active,
            active_from: self.active_from,
            active_till: self.active_till,
            created_at: self.created_at,
            updated_at: self.updated_at,
        }
    }
}

impl Clone for Route {
    /// A clone carries the same value.
    fn clone(&self) -> (r: Self)
        ensures
            r == *self,
    {
        Route {
            id: self.id,
            slug: self.slug.clone(),
            target: self.target.clone(),
            creator_id: self.creator_id,
            active: self.active,
            active_from: self.active_from,
            active_till: self.active_till,
            created_at: self.created_at,
            updated_at: self.updated_at,
        }
    }
}

/// Payload for inserting a link: what a creation request carries once the
/// creator is resolved.
#[derive(Debug)]
pub struct NewRoute {
    /// Slug part of the short URL.
    pub slug: String,
    /// Target the requester is redirected to.
    pub target: String,
    /// Whether the link redirects; absent means the default, active.
    pub active: Option<bool>,
}

/// A link creation request, as received from a caller; no identifier yet.
#[derive(Debug)]
pub struct RouteData {
    /// Slug part of the short URL.
    pub slug: String,
    /// Target the requester is redirected to.
    pub target: String,
    /// Whether the link redirects; absent means the default, active.
    pub active: Option<bool>,
}

/// A link update request: the new slug, target and activity flag for the
/// link `id`, applied only when the caller owns it.
#[derive(Debug)]
pub struct UpdateRouteData {
    /// Identifier of the link to be updated.
    pub id: u128,
    /// Slug part of the short URL.
    pub slug: String,
    /// Target the requester is redirected to.
    pub target: String,
    /// Whether the link redirects; absent leaves the flag as it was.
    pub active: Option<bool>,
}

} // verus!
