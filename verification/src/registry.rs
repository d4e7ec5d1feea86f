//! The link registry: the set of stored links with its two global
//! invariants — no two links share a slug, no two links share an
//! identifier — and the operations the dispatch bridge executes on it.
//!
//! Uniqueness is enforced here, inside the store operation itself, not by
//! a prior existence check: a creation attempt with a taken slug fails
//! with `Conflict` however it races other attempts. Mutations are
//! owner-scoped: they resolve the link by identifier *and* creator, so a
//! caller who is not the owner gets `NotFound`, indistinguishable from
//! absence.

use vstd::prelude::*;

use crate::errors::StoreError;
use crate::links::{NewRoute, Route, RouteView};

verus! {

/// Mathematical image of a stored link collection.
pub open spec fn routes_view(v: Seq<Route>) -> Seq<RouteView> {
    v.map(|i: int, r: Route| r@)
}

/// No two links share a slug or an identifier.
pub open spec fn links_wf(s: Seq<RouteView>) -> bool {
    forall|i: int, j: int|
        0 <= i < j < s.len() ==> s[i].slug != s[j].slug && s[i].id != s[j].id
}

/// Some link carries `slug`.
pub open spec fn contains_slug(s: Seq<RouteView>, slug: Seq<char>) -> bool {
    exists|i: int| 0 <= i < s.len() && s[i].slug == slug
}

/// Some link carries `id`.
pub open spec fn contains_id(s: Seq<RouteView>, id: u128) -> bool {
    exists|i: int| 0 <= i < s.len() && s[i].id == id
}

/// Position of the link carrying `slug` (meaningful when present; unique
/// under `links_wf`).
pub open spec fn slug_index(s: Seq<RouteView>, slug: Seq<char>) -> int {
    choose|i: int| 0 <= i < s.len() && s[i].slug == slug
}

/// Position of the link carrying `id`.
pub open spec fn id_index(s: Seq<RouteView>, id: u128) -> int {
    choose|i: int| 0 <= i < s.len() && s[i].id == id
}

/// The link a slug resolves to, if any.
pub open spec fn spec_read_by_slug(s: Seq<RouteView>, slug: Seq<char>) -> Option<RouteView> {
    if contains_slug(s, slug) {
        Some(s[slug_index(s, slug)])
    } else {
        None
    }
}

/// The link an identifier resolves to, if any.
pub open spec fn spec_read_by_id(s: Seq<RouteView>, id: u128) -> Option<RouteView> {
    if contains_id(s, id) {
        Some(s[id_index(s, id)])
    } else {
        None
    }
}

/// Position of the link `id` when `owner` created it: the owner-scoped
/// lookup every mutation goes through. A link whose creator differs — or
/// an orphan — resolves to `None`, indistinguishable from absence.
pub open spec fn owned_index(s: Seq<RouteView>, id: u128, owner: u128) -> Option<int> {
    if exists|i: int| 0 <= i < s.len() && s[i].id == id && s[i].creator_id == Some(owner) {
        Some(choose|i: int| 0 <= i < s.len() && s[i].id == id && s[i].creator_id == Some(owner))
    } else {
        None
    }
}

/// Links created by `owner`.
pub open spec fn owned_pred(owner: u128) -> spec_fn(RouteView) -> bool {
    |v: RouteView| v.creator_id == Some(owner)
}

/// Some link other than the one at `i` carries `slug`.
pub open spec fn slug_taken_by_other(s: Seq<RouteView>, slug: Seq<char>, i: int) -> bool {
    exists|j: int| 0 <= j < s.len() && j != i && s[j].slug == slug
}

/// The stored fields of a freshly created link.
pub open spec fn fresh_route(
    id: u128,
    slug: Seq<char>,
    target: Seq<char>,
    creator_id: Option<u128>,
    active: Option<bool>,
    now: i64,
) -> RouteView {
    RouteView {
        id,
        slug,
        target,
        creator_id,
        active: active.unwrap_or(true),
        active_from: None,
        active_till: None,
        created_at: now,
        updated_at: now,
    }
}

/// The fields of the link `v` after an owner-scoped update by `owner`:
/// only the supplied fields are re-issued, so an absent activity flag
/// leaves the link switched as it was.
pub open spec fn route_updated(
    v: RouteView,
    slug: Seq<char>,
    target: Seq<char>,
    active: Option<bool>,
    owner: u128,
) -> RouteView {
    RouteView {
        id: v.id,
        slug,
        target,
        creator_id: Some(owner),
        active: active.unwrap_or(v.active),
        active_from: v.active_from,
        active_till: v.active_till,
        created_at: v.created_at,
        updated_at: v.updated_at,
    }
}

/// Under `links_wf`, a position holding `slug` is the unique one.
pub proof fn lemma_slug_index_is(s: Seq<RouteView>, slug: Seq<char>, i: int)
    requires
        links_wf(s),
        0 <= i < s.len(),
        s[i].slug == slug,
    ensures
        contains_slug(s, slug),
        slug_index(s, slug) == i,
{
    assert(contains_slug(s, slug));
    let j = slug_index(s, slug);
    if i < j {
        assert(s[i].slug != s[j].slug);
    } else if j < i {
        assert(s[j].slug != s[i].slug);
    }
}

/// Under `links_wf`, a position holding `id` is the unique one.
pub proof fn lemma_id_index_is(s: Seq<RouteView>, id: u128, i: int)
    requires
        links_wf(s),
        0 <= i < s.len(),
        s[i].id == id,
    ensures
        contains_id(s, id),
        id_index(s, id) == i,
{
    assert(contains_id(s, id));
    let j = id_index(s, id);
    if i < j {
        assert(s[i].id != s[j].id);
    } else if j < i {
        assert(s[j].id != s[i].id);
    }
}

/// The set of stored links. Its well-formedness — global slug and
/// identifier uniqueness — is established empty and preserved by every
/// operation.
pub struct LinkRegistry {
    links: Vec<Route>,
}

impl View for LinkRegistry {
    type V = Seq<RouteView>;

    closed spec fn view(&self) -> Seq<RouteView> {
        routes_view(self.links@)
    }
}

impl LinkRegistry {
    /// Slug and identifier uniqueness.
    pub open spec fn wf(&self) -> bool {
        links_wf(self@)
    }

    /// An empty registry.
    pub fn new() -> (r: Self)
        ensures
            r.wf(),
            r@ == Seq::<RouteView>::empty(),
    {
        let r = LinkRegistry { links: Vec::new() };
        proof {
            assert(r@ =~= Seq::<RouteView>::empty());
        }
        r
    }

    /// Position of the link carrying `slug`, if any.
    fn find_slug(&self, slug: &String) -> (r: Option<usize>)
        requires
            self.wf(),
        ensures
            match r {
                Some(i) => {
                    &&& i < self@.len()
                    &&& self@[i as int].slug == slug@
                    &&& contains_slug(self@, slug@)
                    &&& slug_index(self@, slug@) == i
                },
                None => !contains_slug(self@, slug@),
            },
    {
        let mut i: usize = 0;
        while i < self.links.len()
            invariant
                self.wf(),
                0 <= i <= self@.len(),
                self@.len() == self.links@.len(),
                forall|j: int| 0 <= j < i ==> self@[j].slug != slug@,
            decreases self@.len() - i,
        {
            if self.links[i].slug == *slug {
                proof {
                    lemma_slug_index_is(self@, slug@, i as int);
                }
                return Some(i);
            }
            i += 1;
        }
        None
    }

    /// Position of the link carrying `id`, if any.
    fn find_id(&self, id: u128) -> (r: Option<usize>)
        requires
            self.wf(),
        ensures
            match r {
                Some(i) => {
                    &&& i < self@.len()
                    &&& self@[i as int].id == id
                    &&& contains_id(self@, id)
                    &&& id_index(self@, id) == i
                },
                None => !contains_id(self@, id),
            },
    {
        let mut i: usize = 0;
        while i < self.links.len()
            invariant
                self.wf(),
                0 <= i <= self@.len(),
                self@.len() == self.links@.len(),
                forall|j: int| 0 <= j < i ==> self@[j].id != id,
            decreases self@.len() - i,
        {
            if self.links[i].id == id {
                proof {
                    lemma_id_index_is(self@, id, i as int);
                }
                return Some(i);
            }
            i += 1;
        }
        None
    }

    /// Position of the link carrying `id` with creator `owner`, if any.
    fn find_owned(&self, id: u128, owner: u128) -> (r: Option<usize>)
        requires
            self.wf(),
        ensures
            match r {
                Some(i) => {
                    &&& i < self@.len()
                    &&& self@[i as int].id == id
                    &&& self@[i as int].creator_id == Some(owner)
                    &&& owned_index(self@, id, owner) == Some(i as int)
                },
                None => owned_index(self@, id, owner) is None,
            },
    {
        let mut i: usize = 0;
        while i < self.links.len()
            invariant
                self.wf(),
                0 <= i <= self@.len(),
                self@.len() == self.links@.len(),
                forall|j: int|
                    0 <= j < i ==> !(self@[j].id == id && self@[j].creator_id == Some(owner)),
            decreases self@.len() - i,
        {
            let matches_owner = match self.links[i].creator_id {
                Some(c) => c == owner,
                None => false,
            };
            if self.links[i].id == id && matches_owner {
                proof {
                    let w = choose|w: int|
                        0 <= w < self@.len() && self@[w].id == id && self@[w].creator_id == Some(
                            owner,
                        );
                    lemma_id_index_is(self@, id, i as int);
                    lemma_id_index_is(self@, id, w);
                }
                return Some(i);
            }
            i += 1;
        }
        None
    }

    /// Insert a link under a caller-supplied identifier. Succeeds exactly
    /// when both the slug and the identifier are fresh; either clash is a
    /// uniqueness violation, reported as `Conflict` with the store left
    /// unchanged.
    pub fn create_with_id(
        &mut self,
        id: u128,
        data: NewRoute,
        creator_id: Option<u128>,
        now: i64,
    ) -> (r: Result<Route, StoreError>)
        requires
            old(self).wf(),
        ensures
            final(self).wf(),
            match r {
                Ok(link) => {
                    &&& !contains_slug(old(self)@, data.slug@)
                    &&& !contains_id(old(self)@, id)
                    &&& link@ == fresh_route(id, data.slug@, data.target@, creator_id, data.active, now)
                    &&& final(self)@ == old(self)@.push(link@)
                },
                Err(e) => {
                    &&& e == StoreError::Conflict
                    &&& (contains_slug(old(self)@, data.slug@) || contains_id(old(self)@, id))
                    &&& final(self)@ == old(self)@
                },
            },
    {
        if self.find_slug(&data.slug).is_some() || self.find_id(id).is_some() {
            return Err(StoreError::Conflict);
        }
        let ghost slug_view = data.slug@;
        let link = Route {
            id,
            slug: data.slug,
            target: data.target,
            creator_id,
            active: match data.active {
                Some(b) => b,
                None => true,
            },
            active_from: None,
            active_till: None,
            created_at: now,
            updated_at: now,
        };
        let stored = link.clone();
        let ghost pre = self@;
        self.links.push(stored);
        proof {
            assert(self@ =~= pre.push(link@));
            assert forall|i: int, j: int| 0 <= i < j < self@.len() implies self@[i].slug
                != self@[j].slug && self@[i].id != self@[j].id by {
                if j == pre.len() {
                    assert(!(0 <= i < pre.len() && pre[i].slug == slug_view));
                    assert(!(0 <= i < pre.len() && pre[i].id == id));
                }
            }
        }
        Ok(link)
    }

    /// Create a link under a freshly drawn random identifier. A taken
    /// slug always fails with `Conflict`; so does the (vanishing) chance
    /// of an identifier collision, exactly as any other uniqueness
    /// violation would.
    pub fn create(
        &mut self,
        data: NewRoute,
        creator_id: Option<u128>,
        now: i64,
    ) -> (r: Result<Route, StoreError>)
        requires
            old(self).wf(),
        ensures
            final(self).wf(),
            contains_slug(old(self)@, data.slug@) ==> (r matches Err(e) && e
                == StoreError::Conflict),
            match r {
                Ok(link) => {
                    &&& !contains_slug(old(self)@, data.slug@)
                    &&& !contains_id(old(self)@, link.id)
                    &&& link@ == fresh_route(
                        link.id,
                        data.slug@,
                        data.target@,
                        creator_id,
                        data.active,
                        now,
                    )
                    &&& final(self)@ == old(self)@.push(link@)
                },
                Err(e) => {
                    &&& e == StoreError::Conflict
                    &&& final(self)@ == old(self)@
                },
            },
    {
        let id = crate::rng::random_id();
        self.create_with_id(id, data, creator_id, now)
    }

    /// Resolve a slug, the unauthenticated redirect path.
    pub fn read_by_slug(&self, slug: &String) -> (r: Result<Route, StoreError>)
        requires
            self.wf(),
        ensures
            match r {
                Ok(link) => spec_read_by_slug(self@, slug@) == Some(link@),
                Err(e) => e == StoreError::NotFound && spec_read_by_slug(self@, slug@) is None,
            },
    {
        match self.find_slug(slug) {
            Some(i) => Ok(self.links[i].clone()),
            None => Err(StoreError::NotFound),
        }
    }

    /// Resolve an identifier, unscoped.
    pub fn read_by_id(&self, id: u128) -> (r: Result<Route, StoreError>)
        requires
            self.wf(),
        ensures
            match r {
                Ok(link) => spec_read_by_id(self@, id) == Some(link@),
                Err(e) => e == StoreError::NotFound && spec_read_by_id(self@, id) is None,
            },
    {
        match self.find_id(id) {
            Some(i) => Ok(self.links[i].clone()),
            None => Err(StoreError::NotFound),
        }
    }

    /// All links created by `owner`, in storage order.
    pub fn list_by_owner(&self, owner: u128) -> (r: Vec<Route>)
        requires
            self.wf(),
        ensures
            routes_view(r@) == self@.filter(owned_pred(owner)),
    {
        let mut out: Vec<Route> = Vec::new();
        let mut i: usize = 0;
        proof {
            assert(routes_view(out@) =~= self@.take(0).filter(owned_pred(owner)));
        }
        while i < self.links.len()
            invariant
                self.wf(),
                0 <= i <= self@.len(),
                self@.len() == self.links@.len(),
                routes_view(out@) == self@.take(i as int).filter(owned_pred(owner)),
            decreases self@.len() - i,
        {
            let ghost prefix = self@.take(i as int);
            let matches_owner = match self.links[i].creator_id {
                Some(c) => c == owner,
                None => false,
            };
            if matches_owner {
                let ghost out_pre = out@;
                out.push(self.links[i].clone());
                proof {
                    assert(routes_view(out@) =~= routes_view(out_pre).push(self@[i as int]));
                }
            }
            proof {
                prefix.lemma_filter_push(self@[i as int], owned_pred(owner));
                assert(self@.take(i + 1) =~= prefix.push(self@[i as int]));
            }
            i += 1;
        }
        proof {
            assert(self@.take(self@.len() as int) =~= self@);
        }
        out
    }

    /// Whether no stored link carries `slug`. An availability probe, not
    /// a reservation: a later `create` may still find the slug taken.
    pub fn slug_available(&self, slug: &String) -> (r: bool)
        requires
            self.wf(),
        ensures
            r == !contains_slug(self@, slug@),
    {
        self.find_slug(slug).is_none()
    }

    /// Owner-scoped update: re-issue the slug, target and activity flag
    /// of the link `id`, provided `creator_id` owns it. A missing link
    /// and a foreign or orphan one alike fail with `NotFound`; a new slug
    /// already carried by some other link fails with `Conflict`.
    pub fn update(
        &mut self,
        id: u128,
        creator_id: u128,
        slug: String,
        target: String,
        active: Option<bool>,
    ) -> (r: Result<Route, StoreError>)
        requires
            old(self).wf(),
        ensures
            final(self).wf(),
            match owned_index(old(self)@, id, creator_id) {
                None => {
                    &&& r matches Err(e) && e == StoreError::NotFound
                    &&& final(self)@ == old(self)@
                },
                Some(i) => {
                    if slug_taken_by_other(old(self)@, slug@, i) {
                        &&& r matches Err(e) && e == StoreError::Conflict
                        &&& final(self)@ == old(self)@
                    } else {
                        &&& r matches Ok(link) && link@ == route_updated(
                            old(self)@[i],
                            slug@,
                            target@,
                            active,
                            creator_id,
                        )
                        &&& final(self)@ == old(self)@.update(
                            i,
                            route_updated(old(self)@[i], slug@, target@, active, creator_id),
                        )
                    }
                },
            },
    {
        let i = match self.find_owned(id, creator_id) {
            Some(i) => i,
            None => {
                return Err(StoreError::NotFound);
            },
        };
        // The slug the caller re-issues must not collide with any other link.
        let mut j: usize = 0;
        while j < self.links.len()
            invariant
                self.wf(),
                *self == *old(self),
                0 <= j <= self@.len(),
                self@.len() == self.links@.len(),
                i < self@.len(),
                owned_index(old(self)@, id, creator_id) == Some(i as int),
                self@[i as int].id == id,
                self@[i as int].creator_id == Some(creator_id),
                forall|k: int| 0 <= k < j && k != i ==> self@[k].slug != slug@,
            decreases self@.len() - j,
        {
            if j != i && self.links[j].slug == slug {
                proof {
                    assert(self@[j as int].slug == slug@);
                    assert(slug_taken_by_other(self@, slug@, i as int));
                }
                return Err(StoreError::Conflict);
            }
            j += 1;
        }
        let old_link = &self.links[i];
        let updated = Route {
            id: old_link.id,
            slug,
            target,
            creator_id: Some(creator_id),
            active: match active {
                Some(b) => b,
                None => old_link.active,
            },
            active_from: old_link.active_from,
            active_till: old_link.active_till,
            created_at: old_link.created_at,
            updated_at: old_link.updated_at,
        };
        let returned = updated.clone();
        let ghost pre = self@;
        self.links.set(i, updated);
        proof {
            assert(self@ =~= pre.update(i as int, returned@));
            assert forall|a: int, b: int| 0 <= a < b < self@.len() implies self@[a].slug
                != self@[b].slug && self@[a].id != self@[b].id by {
                if a != i && b != i {
                    assert(self@[a] == pre[a] && self@[b] == pre[b]);
                }
            }
        }
        Ok(returned)
    }

    /// Owner-scoped removal of the link `id`, under the same scoping rule
    /// as `update`; returns the removed link.
    pub fn delete(&mut self, id: u128, creator_id: u128) -> (r: Result<Route, StoreError>)
        requires
            old(self).wf(),
        ensures
            final(self).wf(),
            match owned_index(old(self)@, id, creator_id) {
                None => {
                    &&& r matches Err(e) && e == StoreError::NotFound
                    &&& final(self)@ == old(self)@
                },
                Some(i) => {
                    &&& r matches Ok(link) && link@ == old(self)@[i]
                    &&& final(self)@ == old(self)@.remove(i)
                },
            },
    {
        let i = match self.find_owned(id, creator_id) {
            Some(i) => i,
            None => {
                return Err(StoreError::NotFound);
            },
        };
        let ghost pre = self@;
        let removed = self.links.remove(i);
        proof {
            assert(self@ =~= pre.remove(i as int));
        }
        Ok(removed)
    }
}

/// A link the scheduled sweep keeps: one with a creator, or an orphan
/// not yet past the cutoff.
pub open spec fn survives(cutoff: i64) -> spec_fn(RouteView) -> bool {
    |v: RouteView| !(v.creator_id is None && v.created_at < cutoff)
}

/// Every element of a filtered sequence occurs in the unfiltered one.
pub proof fn lemma_filter_elems(s: Seq<RouteView>, pred: spec_fn(RouteView) -> bool)
    ensures
        forall|k: int| 0 <= k < s.filter(pred).len() ==> s.contains(#[trigger] s.filter(pred)[k]),
    decreases s.len(),
{
    reveal(Seq::filter);
    if s.len() > 0 {
        let rest = s.drop_last();
        lemma_filter_elems(rest, pred);
        assert forall|k: int| 0 <= k < s.filter(pred).len() implies s.contains(
            #[trigger] s.filter(pred)[k],
        ) by {
            if pred(s.last()) && k == s.filter(pred).len() - 1 {
                assert(s[s.len() - 1] == s.filter(pred)[k]);
            } else {
                assert(rest.contains(rest.filter(pred)[k]));
                let w = choose|w: int| 0 <= w < rest.len() && rest[w] == rest.filter(pred)[k];
                assert(s[w] == s.filter(pred)[k]);
            }
        }
    }
}

/// Filtering keeps slug and identifier uniqueness.
pub proof fn lemma_filter_wf(s: Seq<RouteView>, pred: spec_fn(RouteView) -> bool)
    requires
        links_wf(s),
    ensures
        links_wf(s.filter(pred)),
    decreases s.len(),
{
    reveal(Seq::filter);
    if s.len() > 0 {
        let rest = s.drop_last();
        assert(links_wf(rest));
        lemma_filter_wf(rest, pred);
        if pred(s.last()) {
            lemma_filter_elems(rest, pred);
            let out = s.filter(pred);
            assert forall|a: int, b: int| 0 <= a < b < out.len() implies out[a].slug
                != out[b].slug && out[a].id != out[b].id by {
                if b == out.len() - 1 {
                    assert(rest.contains(rest.filter(pred)[a]));
                    let w = choose|w: int| 0 <= w < rest.len() && rest[w] == rest.filter(pred)[a];
                    assert(s[w] == out[a]);
                    assert(s[w].slug != s[s.len() - 1].slug && s[w].id != s[s.len() - 1].id);
                } else {
                    assert(rest.filter(pred)[a] == out[a] && rest.filter(pred)[b] == out[b]);
                }
            }
        }
    }
}

impl LinkRegistry {
    /// The scheduled sweep: remove every orphan link created before
    /// `cutoff`, and nothing else — links with a creator stay whatever
    /// their age. Idempotent, and a no-op when no orphan is past the
    /// cutoff. Returns how many links were removed.
    pub fn remove_expired_orphans(&mut self, cutoff: i64) -> (removed: usize)
        requires
            old(self).wf(),
        ensures
            final(self).wf(),
            final(self)@ == old(self)@.filter(survives(cutoff)),
            removed == old(self)@.len() - final(self)@.len(),
    {
        let mut kept: Vec<Route> = Vec::new();
        let mut i: usize = 0;
        proof {
            assert(routes_view(kept@) =~= self@.take(0).filter(survives(cutoff)));
        }
        while i < self.links.len()
            invariant
                self.wf(),
                *self == *old(self),
                0 <= i <= self@.len(),
                self@.len() == self.links@.len(),
                kept@.len() <= i,
                routes_view(kept@) == self@.take(i as int).filter(survives(cutoff)),
            decreases self@.len() - i,
        {
            let ghost prefix = self@.take(i as int);
            let is_expired_orphan = match self.links[i].creator_id {
                Some(_) => false,
                None => self.links[i].created_at < cutoff,
            };
            if !is_expired_orphan {
                let ghost kept_pre = kept@;
                kept.push(self.links[i].clone());
                proof {
                    assert(routes_view(kept@) =~= routes_view(kept_pre).push(self@[i as int]));
                }
            }
            proof {
                prefix.lemma_filter_push(self@[i as int], survives(cutoff));
                assert(self@.take(i + 1) =~= prefix.push(self@[i as int]));
            }
            i += 1;
        }
        proof {
            assert(self@.take(self@.len() as int) =~= self@);
            lemma_filter_wf(self@, survives(cutoff));
        }
        let removed = self.links.len() - kept.len();
        self.links = kept;
        removed
    }
}

/// Law: creating a link with a fresh slug and then reading that slug
/// returns exactly the created link, with its slug and target.
pub proof fn lemma_create_then_read(pre: Seq<RouteView>, link: RouteView)
    requires
        links_wf(pre),
        !contains_slug(pre, link.slug),
    ensures
        spec_read_by_slug(pre.push(link), link.slug) == Some(link),
{
    let s = pre.push(link);
    assert(s[pre.len() as int] == link);
    assert(contains_slug(s, link.slug));
    let i = slug_index(s, link.slug);
    if i != pre.len() {
        assert(pre[i].slug == link.slug);
        assert(contains_slug(pre, link.slug));
    }
}

/// Law: once a creation with some slug has succeeded, the state contains
/// that slug, so every later creation attempt with it — whichever racing
/// caller it comes from — is refused with `Conflict` by `create`'s
/// contract: of simultaneous attempts, only the first to reach the store
/// succeeds.
pub proof fn lemma_second_create_conflicts(pre: Seq<RouteView>, link: RouteView, slug: Seq<char>)
    requires
        link.slug == slug,
    ensures
        contains_slug(pre.push(link), slug),
{
    let s = pre.push(link);
    assert(s[pre.len() as int] == link);
}

/// Law: a well-formed store never holds two links with one slug. With
/// `lemma_second_create_conflicts`, this carries the race to any number
/// of creation attempts: the bridge serializes them against storage, the
/// first to arrive at a slug-free store succeeds and puts the slug in,
/// every later one is refused with `Conflict` by `create`'s contract,
/// and exactly one link with the slug ever exists.
pub proof fn lemma_at_most_one_slug(s: Seq<RouteView>, slug: Seq<char>, i: int, j: int)
    requires
        links_wf(s),
        0 <= i < s.len(),
        0 <= j < s.len(),
        s[i].slug == slug,
        s[j].slug == slug,
    ensures
        i == j,
{
    if i < j {
        assert(s[i].slug != s[j].slug);
    } else if j < i {
        assert(s[j].slug != s[i].slug);
    }
}

/// Law: a mutation scoped to an owner who did not create the link
/// resolves to nothing — `update` and `delete` then fail with `NotFound`
/// — even though the link exists.
pub proof fn lemma_foreign_owner_not_found(s: Seq<RouteView>, id: u128, owner: u128)
    requires
        links_wf(s),
        contains_id(s, id),
        s[id_index(s, id)].creator_id != Some(owner),
    ensures
        owned_index(s, id, owner) is None,
{
    if owned_index(s, id, owner) is Some {
        let i = choose|i: int|
            0 <= i < s.len() && s[i].id == id && s[i].creator_id == Some(owner);
        lemma_id_index_is(s, id, i);
    }
}

/// Law: an orphan link can never be reached through the owner-scoped
/// path, whoever asks; only the sweep removes it.
pub proof fn lemma_orphan_unreachable(s: Seq<RouteView>, id: u128, owner: u128)
    requires
        links_wf(s),
        contains_id(s, id),
        s[id_index(s, id)].creator_id is None,
    ensures
        owned_index(s, id, owner) is None,
{
    lemma_foreign_owner_not_found(s, id, owner);
}

} // verus!

