//! An in-memory posts table that carries the semantics of the statements
//! the service runs against its store: an insert that assigns the next
//! identifier, replacement of title and body by identifier, setting the
//! published flag by identifier, and a scan capped at a given length.

use vstd::prelude::*;
use crate::models::{NewPost, Post, PostModel};

verus! {

/// `s` holds a post with identifier `id`.
pub open spec fn contains_id(s: Seq<PostModel>, id: int) -> bool {
    exists|i: int| 0 <= i < s.len() && s[i].id == id
}

/// An index of a post with identifier `id` in `s`.
pub open spec fn index_of_id(s: Seq<PostModel>, id: int) -> int {
    choose|i: int| 0 <= i < s.len() && s[i].id == id
}

/// The post with identifier `id` in `s`.
pub open spec fn post_with_id(s: Seq<PostModel>, id: int) -> PostModel {
    s[index_of_id(s, id)]
}

/// `p` with its title and body replaced and everything else kept.
pub open spec fn with_title_body(p: PostModel, title: Seq<char>, body: Seq<char>) -> PostModel {
    PostModel { id: p.id, title: title, body: body, published: p.published }
}

/// `p` with its published flag set and everything else kept.
pub open spec fn with_published(p: PostModel) -> PostModel {
    PostModel { id: p.id, title: p.title, body: p.body, published: true }
}

/// `s` after the title and body of every post with identifier `id` are
/// replaced; with distinct identifiers that is at most one post.
pub open spec fn spec_update(s: Seq<PostModel>, id: int, title: Seq<char>, body: Seq<char>) -> Seq<
    PostModel,
> {
    s.map_values(|p: PostModel| if p.id == id { with_title_body(p, title, body) } else { p })
}

/// `s` after the published flag of every post with identifier `id` is set.
pub open spec fn spec_publish(s: Seq<PostModel>, id: int) -> Seq<PostModel> {
    s.map_values(|p: PostModel| if p.id == id { with_published(p) } else { p })
}

/// All identifiers in `s` are distinct.
pub open spec fn ids_distinct(s: Seq<PostModel>) -> bool {
    forall|i: int, j: int| 0 <= i < j < s.len() ==> s[i].id != s[j].id
}

/// The posts table. It owns every post record; identifiers are assigned
/// from a counter on creation and stay distinct.
pub struct PostsTable {
    posts: Vec<Post>,
    next_id: i32,
}

impl View for PostsTable {
    type V = Seq<PostModel>;

    closed spec fn view(&self) -> Seq<PostModel> {
        self.posts@.map_values(|p: Post| p@)
    }
}

impl PostsTable {
    /// The identifier the next created post will receive.
    pub closed spec fn spec_next_id(self) -> int {
        self.next_id as int
    }

    /// The table's invariant: identifiers start at 1, stay below the
    /// counter, and are distinct.
    pub closed spec fn wf(self) -> bool {
        &&& 1 <= self.next_id
        &&& forall|i: int| 0 <= i < self@.len() ==> 1 <= (#[trigger] self@[i]).id < self.next_id
        &&& ids_distinct(self@)
    }

    /// An empty table; the first post created will get identifier 1.
    pub fn new() -> (t: PostsTable)
        ensures
            t.wf(),
            t@ == Seq::<PostModel>::empty(),
            t.spec_next_id() == 1,
    {
        let t = PostsTable { posts: Vec::new(), next_id: 1 };
        proof {
            assert(t@ =~= Seq::<PostModel>::empty());
        }
        t
    }

    /// An index of the post with the given identifier, if one is stored.
    fn find_index(&self, post_id: i32) -> (r: Option<usize>)
        ensures
            r matches Some(i) ==> i < self@.len() && self@[i as int].id == post_id as int,
            r is None ==> !contains_id(self@, post_id as int),
    {
        let n = self.posts.len();
        let mut i: usize = 0;
        while i < n
            invariant
                i <= n,
                n == self@.len(),
                forall|j: int| 0 <= j < i ==> (#[trigger] self@[j]).id != post_id as int,
            decreases n - i,
        {
            if self.posts[i].id == post_id {
                return Some(i);
            }
            i = i + 1;
        }
        None
    }

    /// Stores a new post built from the payload: the counter's value as
    /// its identifier, published false. Returns the materialized post.
    pub fn insert(&mut self, new_post: &NewPost) -> (post: Post)
        requires
            old(self).wf(),
            old(self).spec_next_id() < i32::MAX,
        ensures
            final(self).wf(),
            post@ == (PostModel {
                id: old(self).spec_next_id(),
                title: new_post.title@,
                body: new_post.body@,
                published: false,
            }),
            final(self)@ == old(self)@.push(post@),
            final(self).spec_next_id() == old(self).spec_next_id() + 1,
    {
        let stored = Post {
            id: self.next_id,
            title: new_post.title.clone(),
            body: new_post.body.clone(),
            published: false,
        };
        let ret = stored.duplicate();
        self.posts.push(stored);
        self.next_id = self.next_id + 1;
        proof {
            assert(self@ =~= old(self)@.push(ret@));
        }
        ret
    }

    /// Replaces the title and body of the post with the given identifier,
    /// leaving its published flag alone, and returns the changed post;
    /// `None` when no post has that identifier, with the table unchanged.
    pub fn update(&mut self, post_id: i32, new_post: &NewPost) -> (r: Option<Post>)
        requires
            old(self).wf(),
        ensures
            final(self).wf(),
            final(self).spec_next_id() == old(self).spec_next_id(),
            final(self)@ == spec_update(
                old(self)@,
                post_id as int,
                new_post.title@,
                new_post.body@,
            ),
            r is Some <==> contains_id(old(self)@, post_id as int),
            r matches Some(p) ==> p@ == with_title_body(
                post_with_id(old(self)@, post_id as int),
                new_post.title@,
                new_post.body@,
            ),
            r is None ==> *final(self) == *old(self),
    {
        match self.find_index(post_id) {
            None => {
                proof {
                    assert(self@ =~= spec_update(
                        self@,
                        post_id as int,
                        new_post.title@,
                        new_post.body@,
                    ));
                }
                None
            },
            Some(i) => {
                let updated = Post {
                    id: post_id,
                    title: new_post.title.clone(),
                    body: new_post.body.clone(),
                    published: self.posts[i].published,
                };
                let ret = updated.duplicate();
                self.posts[i] = updated;
                proof {
                    lemma_choose_id(old(self)@, i as int);
                    assert(self@ =~= spec_update(
                        old(self)@,
                        post_id as int,
                        new_post.title@,
                        new_post.body@,
                    ));
                }
                Some(ret)
            },
        }
    }

    /// Sets the published flag of the post with the given identifier and
    /// returns the changed post; `None` when no post has that identifier,
    /// with the table unchanged.
    pub fn publish(&mut self, post_id: i32) -> (r: Option<Post>)
        requires
            old(self).wf(),
        ensures
            final(self).wf(),
            final(self).spec_next_id() == old(self).spec_next_id(),
            final(self)@ == spec_publish(old(self)@, post_id as int),
            r is Some <==> contains_id(old(self)@, post_id as int),
            r matches Some(p) ==> p@ == with_published(post_with_id(old(self)@, post_id as int)),
            r is None ==> *final(self) == *old(self),
    {
        match self.find_index(post_id) {
            None => {
                proof {
                    assert(self@ =~= spec_publish(self@, post_id as int));
                }
                None
            },
            Some(i) => {
                let refreshed = Post {
                    id: self.posts[i].id,
                    title: self.posts[i].title.clone(),
                    body: self.posts[i].body.clone(),
                    published: true,
                };
                let ret = refreshed.duplicate();
                self.posts[i] = refreshed;
                proof {
                    lemma_choose_id(old(self)@, i as int);
                    assert(self@ =~= spec_publish(old(self)@, post_id as int));
                }
                Some(ret)
            },
        }
    }

    /// The stored posts in storage order, capped at `limit` records.
    pub fn first_n(&self, limit: usize) -> (r: Vec<Post>)
        ensures
            r@.len() == if self@.len() <= limit {
                self@.len()
            } else {
                limit as nat
            },
            forall|i: int| 0 <= i < r@.len() ==> (#[trigger] r@[i])@ == self@[i],
    {
        let n = self.posts.len();
        let m = if n <= limit {
            n
        } else {
            limit
        };
        let mut r: Vec<Post> = Vec::new();
        let mut i: usize = 0;
        while i < m
            invariant
                i <= m,
                m <= self@.len(),
                r@.len() == i,
                forall|j: int| 0 <= j < i ==> (#[trigger] r@[j])@ == self@[j],
            decreases m - i,
        {
            r.push(self.posts[i].duplicate());
            i = i + 1;
        }
        r
    }
}

/// With distinct identifiers, the index chosen for `s[i].id` is `i` itself.
proof fn lemma_choose_id(s: Seq<PostModel>, i: int)
    requires
        ids_distinct(s),
        0 <= i < s.len(),
    ensures
        contains_id(s, s[i].id),
        index_of_id(s, s[i].id) == i,
        post_with_id(s, s[i].id) == s[i],
{
    assert(contains_id(s, s[i].id));
    let k = index_of_id(s, s[i].id);
    assert(0 <= k < s.len() && s[k].id == s[i].id);
    if k != i {
        assert(s[k].id != s[i].id);
    }
}

} // verus!
