//! Articles: a small publishing store kept alongside the links — drafts
//! with a title and a body, published explicitly, listed publicly only
//! once published. Identifier uniqueness is enforced as for links.

use vstd::prelude::*;

use crate::errors::StoreError;

verus! {

/// A stored article.
#[derive(Debug)]
pub struct Article {
    /// Unique identifier.
    pub uuid: u128,
    pub title: String,
    pub body: String,
    /// Whether the article is publicly listed.
    pub published: bool,
}

/// Mathematical image of an `Article`.
pub struct ArticleView {
    pub uuid: u128,
    pub title: Seq<char>,
    pub body: Seq<char>,
    pub published: bool,
}

impl View for Article {
    type V = ArticleView;

    open spec fn view(&self) -> ArticleView {
        ArticleView {
            uuid: self.uuid,
            title: self.title@,
            body: self.body@,
            published: self.published,
        }
    }
}

impl Clone for Article {
    /// A clone carries the same value.
    fn clone(&self) -> (r: Self)
        ensures
            r == *self,
    {
        Article {
            uuid: self.uuid,
            title: self.title.clone(),
            body: self.body.clone(),
            published: self.published,
        }
    }
}

/// Payload for inserting an article: a draft with its fresh identifier.
#[derive(Debug)]
pub struct NewArticle {
    pub uuid: u128,
    pub title: String,
    pub body: String,
}

/// An article creation or update request, as received from a caller.
#[derive(Debug)]
pub struct ArticleData {
    pub title: String,
    pub body: String,
}

/// Mathematical image of a stored article collection.
pub open spec fn articles_view(v: Seq<Article>) -> Seq<ArticleView> {
    v.map(|i: int, a: Article| a@)
}

/// No two articles share an identifier.
pub open spec fn articles_wf(s: Seq<ArticleView>) -> bool {
    forall|i: int, j: int| 0 <= i < j < s.len() ==> s[i].uuid != s[j].uuid
}

/// Some article carries `uuid`.
pub open spec fn contains_article(s: Seq<ArticleView>, uuid: u128) -> bool {
    exists|i: int| 0 <= i < s.len() && s[i].uuid == uuid
}

/// Position of the article carrying `uuid`.
pub open spec fn article_index(s: Seq<ArticleView>, uuid: u128) -> int {
    choose|i: int| 0 <= i < s.len() && s[i].uuid == uuid
}

/// Published articles only.
pub open spec fn published_pred() -> spec_fn(ArticleView) -> bool {
    |a: ArticleView| a.published
}

/// Under `articles_wf`, a position holding `uuid` is the unique one.
pub proof fn lemma_article_index_is(s: Seq<ArticleView>, uuid: u128, i: int)
    requires
        articles_wf(s),
        0 <= i < s.len(),
        s[i].uuid == uuid,
    ensures
        contains_article(s, uuid),
        article_index(s, uuid) == i,
{
    assert(contains_article(s, uuid));
    let j = article_index(s, uuid);
    if i < j {
        assert(s[i].uuid != s[j].uuid);
    } else if j < i {
        assert(s[j].uuid != s[i].uuid);
    }
}

/// The set of stored articles, with identifier uniqueness established
/// empty and preserved by every operation.
pub struct ArticleStore {
    articles: Vec<Article>,
}

impl View for ArticleStore {
    type V = Seq<ArticleView>;

    closed spec fn view(&self) -> Seq<ArticleView> {
        articles_view(self.articles@)
    }
}

impl ArticleStore {
    /// Identifier uniqueness.
    pub open spec fn wf(&self) -> bool {
        articles_wf(self@)
    }

    /// An empty store.
    pub fn new() -> (r: Self)
        ensures
            r.wf(),
            r@ == Seq::<ArticleView>::empty(),
    {
        let r = ArticleStore { articles: Vec::new() };
        proof {
            assert(r@ =~= Seq::<ArticleView>::empty());
        }
        r
    }

    /// Position of the article carrying `uuid`, if any.
    fn find(&self, uuid: u128) -> (r: Option<usize>)
        requires
            self.wf(),
        ensures
            match r {
                Some(i) => {
                    &&& i < self@.len()
                    &&& self@[i as int].uuid == uuid
                    &&& contains_article(self@, uuid)
                    &&& article_index(self@, uuid) == i
                },
                None => !contains_article(self@, uuid),
            },
    {
        let mut i: usize = 0;
        while i < self.articles.len()
            invariant
                self.wf(),
                0 <= i <= self@.len(),
                self@.len() == self.articles@.len(),
                forall|j: int| 0 <= j < i ==> self@[j].uuid != uuid,
            decreases self@.len() - i,
        {
            if self.articles[i].uuid == uuid {
                proof {
                    lemma_article_index_is(self@, uuid, i as int);
                }
                return Some(i);
            }
            i += 1;
        }
        None
    }

    /// Insert a draft under a caller-supplied identifier; unpublished
    /// until published explicitly. An identifier clash is `Conflict`.
    pub fn create_with_id(&mut self, data: NewArticle) -> (r: Result<Article, StoreError>)
        requires
            old(self).wf(),
        ensures
            final(self).wf(),
            match r {
                Ok(article) => {
                    &&& !contains_article(old(self)@, data.uuid)
                    &&& article@ == (ArticleView {
                        uuid: data.uuid,
                        title: data.title@,
                        body: data.body@,
                        published: false,
                    })
                    &&& final(self)@ == old(self)@.push(article@)
                },
                Err(e) => {
                    &&& e == StoreError::Conflict
                    &&& contains_article(old(self)@, data.uuid)
                    &&& final(self)@ == old(self)@
                },
            },
    {
        if self.find(data.uuid).is_some() {
            return Err(StoreError::Conflict);
        }
        let article = Article { uuid: data.uuid, title: data.title, body: data.body, published: false };
        let stored = article.clone();
        let ghost pre = self@;
        self.articles.push(stored);
        proof {
            assert(self@ =~= pre.push(article@));
            assert forall|i: int, j: int| 0 <= i < j < self@.len() implies self@[i].uuid
                != self@[j].uuid by {
                if j == pre.len() {
                    assert(!(0 <= i < pre.len() && pre[i].uuid == article@.uuid));
                }
            }
        }
        Ok(article)
    }

    /// Insert a draft under a freshly drawn random identifier.
    pub fn create(&mut self, data: ArticleData) -> (r: Result<Article, StoreError>)
        requires
            old(self).wf(),
        ensures
            final(self).wf(),
            match r {
                Ok(article) => {
                    &&& !contains_article(old(self)@, article.uuid)
                    &&& article@ == (ArticleView {
                        uuid: article@.uuid,
                        title: data.title@,
                        body: data.body@,
                        published: false,
                    })
                    &&& final(self)@ == old(self)@.push(article@)
                },
                Err(e) => {
                    &&& e == StoreError::Conflict
                    &&& final(self)@ == old(self)@
                },
            },
    {
        let uuid = crate::rng::random_id();
        self.create_with_id(NewArticle { uuid, title: data.title, body: data.body })
    }

    /// Re-issue the title and body of the article `uuid`.
    pub fn update(&mut self, uuid: u128, title: String, body: String) -> (r: Result<
        Article,
        StoreError,
    >)
        requires
            old(self).wf(),
        ensures
            final(self).wf(),
            match r {
                Ok(article) => {
                    &&& contains_article(old(self)@, uuid)
                    &&& article@ == (ArticleView {
                        uuid,
                        title: title@,
                        body: body@,
                        published: old(self)@[article_index(old(self)@, uuid)].published,
                    })
                    &&& final(self)@ == old(self)@.update(
                        article_index(old(self)@, uuid),
                        article@,
                    )
                },
                Err(e) => {
                    &&& e == StoreError::NotFound
                    &&& !contains_article(old(self)@, uuid)
                    &&& final(self)@ == old(self)@
                },
            },
    {
        let i = match self.find(uuid) {
            Some(i) => i,
            None => {
                return Err(StoreError::NotFound);
            },
        };
        let updated = Article {
            uuid,
            title,
            body,
            published: self.articles[i].published,
        };
        let returned = updated.clone();
        let ghost pre = self@;
        self.articles.set(i, updated);
        proof {
            assert(self@ =~= pre.update(i as int, returned@));
            assert forall|a: int, b: int| 0 <= a < b < self@.len() implies self@[a].uuid
                != self@[b].uuid by {
                if a != i && b != i {
                    assert(self@[a] == pre[a] && self@[b] == pre[b]);
                }
            }
        }
        Ok(returned)
    }

    /// Mark the article `uuid` as published.
    pub fn publish(&mut self, uuid: u128) -> (r: Result<Article, StoreError>)
        requires
            old(self).wf(),
        ensures
            final(self).wf(),
            match r {
                Ok(article) => {
                    &&& contains_article(old(self)@, uuid)
                    &&& article@ == (ArticleView {
                        published: true,
                        ..old(self)@[article_index(old(self)@, uuid)]
                    })
                    &&& final(self)@ == old(self)@.update(
                        article_index(old(self)@, uuid),
                        article@,
                    )
                },
                Err(e) => {
                    &&& e == StoreError::NotFound
                    &&& !contains_article(old(self)@, uuid)
                    &&& final(self)@ == old(self)@
                },
            },
    {
        let i = match self.find(uuid) {
            Some(i) => i,
            None => {
                return Err(StoreError::NotFound);
            },
        };
        let current = &self.articles[i];
        let updated = Article {
            uuid: current.uuid,
            title: current.title.clone(),
            body: current.body.clone(),
            published: true,
        };
        let returned = updated.clone();
        let ghost pre = self@;
        self.articles.set(i, updated);
        proof {
            assert(self@ =~= pre.update(i as int, returned@));
            assert forall|a: int, b: int| 0 <= a < b < self@.len() implies self@[a].uuid
                != self@[b].uuid by {
                if a != i && b != i {
                    assert(self@[a] == pre[a] && self@[b] == pre[b]);
                }
            }
        }
        Ok(returned)
    }

    /// Remove the article `uuid`; returns the removed article.
    pub fn delete(&mut self, uuid: u128) -> (r: Result<Article, StoreError>)
        requires
            old(self).wf(),
        ensures
            final(self).wf(),
            match r {
                Ok(article) => {
                    &&& contains_article(old(self)@, uuid)
                    &&& article@ == old(self)@[article_index(old(self)@, uuid)]
                    &&& final(self)@ == old(self)@.remove(article_index(old(self)@, uuid))
                },
                Err(e) => {
                    &&& e == StoreError::NotFound
                    &&& !contains_article(old(self)@, uuid)
                    &&& final(self)@ == old(self)@
                },
            },
    {
        let i = match self.find(uuid) {
            Some(i) => i,
            None => {
                return Err(StoreError::NotFound);
            },
        };
        let ghost pre = self@;
        let removed = self.articles.remove(i);
        proof {
            assert(self@ =~= pre.remove(i as int));
        }
        Ok(removed)
    }

    /// All published articles, in storage order.
    pub fn get_published(&self) -> (r: Vec<Article>)
        requires
            self.wf(),
        ensures
            articles_view(r@) == self@.filter(published_pred()),
    {
        let mut out: Vec<Article> = Vec::new();
        let mut i: usize = 0;
        proof {
            assert(articles_view(out@) =~= self@.take(0).filter(published_pred()));
        }
        while i < self.articles.len()
            invariant
                self.wf(),
                0 <= i <= self@.len(),
                self@.len() == self.articles@.len(),
                articles_view(out@) == self@.take(i as int).filter(published_pred()),
            decreases self@.len() - i,
        {
            let ghost prefix = self@.take(i as int);
            if self.articles[i].published {
                let ghost out_pre = out@;
                out.push(self.articles[i].clone());
                proof {
                    assert(articles_view(out@) =~= articles_view(out_pre).push(self@[i as int]));
                }
            }
            proof {
                prefix.lemma_filter_push(self@[i as int], published_pred());
                assert(self@.take(i + 1) =~= prefix.push(self@[i as int]));
            }
            i += 1;
        }
        proof {
            assert(self@.take(self@.len() as int) =~= self@);
        }
        out
    }
}

} // verus!
